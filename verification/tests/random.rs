use frost_core::random::EnvironmentError;
use frost_core::Random;

fn seeded(seed: u64) -> Random {
    let mut random = Random::from_clock(Some(0)).expect("a clock reading always seeds");
    random.set_seed(seed);
    random
}

#[test]
fn first_draw_is_the_seed() {
    let mut random = seeded(42);
    assert_eq!(random.next_seed(), 42);
}

#[test]
fn draws_follow_the_three_shift_step() {
    let mut random = seeded(1);
    assert_eq!(random.next_seed(), 1);
    assert_eq!(random.next_seed(), 0x80_0800_1001);
    assert_eq!(random.next_seed(), 0x0060_0000_2500_0005);
    assert_eq!(random.next_seed(), 0x80c8_0990_ad01_7817);
}

#[test]
fn left_shifts_drop_the_high_bits() {
    let mut random = seeded(u64::MAX);
    assert_eq!(random.next_seed(), u64::MAX);
    assert_eq!(random.next_seed(), 0x7f_f800_0fff);
    assert_eq!(random.next_seed(), 0xffdf_ffff_e300_0003);
    assert_eq!(random.get_seed(), 0x7fb8_0770_6300_d7f2);
}

#[test]
fn zero_seed_stays_zero() {
    let mut random = seeded(0);
    for _ in 0..5 {
        assert_eq!(random.next_seed(), 0);
    }
}

#[test]
fn ten_draws_from_a_known_seed() {
    let expected: [u64; 10] = [
        42,
        23095381499946,
        1134907129350586519,
        1986447747357745698,
        13655906112023497470,
        6030608650085336,
        5862766081091188246,
        2321463424629345031,
        9200548265876794487,
        15445044527150799949,
    ];
    let mut random = seeded(42);
    for value in expected {
        assert_eq!(random.next_seed(), value);
    }
}

#[test]
fn same_seed_gives_the_same_sequence() {
    let mut first = seeded(0x0123_4567_89ab_cdef);
    let mut second = seeded(0x0123_4567_89ab_cdef);
    for _ in 0..10 {
        assert_eq!(first.next_seed(), second.next_seed());
    }
    assert_eq!(first.get_seed(), second.get_seed());
}

#[test]
fn set_seed_restarts_the_sequence() {
    let mut random = seeded(7);
    let a = random.next_seed();
    let b = random.next_seed();
    random.set_seed(7);
    assert_eq!(random.get_seed(), 7);
    assert_eq!(random.next_seed(), a);
    assert_eq!(random.next_seed(), b);
}

#[test]
fn get_seed_does_not_advance() {
    let random = seeded(99);
    assert_eq!(random.get_seed(), 99);
    assert_eq!(random.get_seed(), 99);
}

#[test]
fn next_u64_adds_the_remainder() {
    let mut random = seeded(7);
    assert_eq!(random.next_u64(10, 5), 12);
    assert_eq!(random.get_seed(), 3849230249991);
    let mut random = seeded(u64::MAX);
    assert_eq!(random.next_u64(0, u64::MAX), 0);
    let mut random = seeded(u64::MAX);
    assert_eq!(random.next_u64(u64::MAX, 1), u64::MAX);
}

#[test]
fn next_u64_stays_in_its_range() {
    let mut random = seeded(0x9e37_79b9_7f4a_7c15);
    for _ in 0..1000 {
        let value = random.next_u64(10, 5);
        assert!((10..15).contains(&value));
    }
}

#[test]
fn next_i64_adds_the_remainder() {
    let mut random = seeded(7);
    assert_eq!(random.next_i64(-3, 4), 0);
    assert_eq!(random.get_seed(), 3849230249991);
    let mut random = seeded(u64::MAX);
    assert_eq!(random.next_i64(i64::MIN, i64::MAX), i64::MIN + 1);
}

#[test]
fn next_i64_stays_in_a_positive_range() {
    let mut random = seeded(0x9e37_79b9_7f4a_7c15);
    for _ in 0..1000 {
        let value = random.next_i64(-2, 5);
        assert!((-2..3).contains(&value));
    }
}

#[test]
fn next_i64_reads_a_negative_range_as_unsigned() {
    // -1 is read as 2^64 - 1, so a smaller draw passes through unchanged.
    let mut random = seeded(5);
    assert_eq!(random.next_i64(100, -1), 105);
    // -2 is read as 2^64 - 2, which leaves 1 of the largest draw.
    let mut random = seeded(u64::MAX);
    assert_eq!(random.next_i64(100, -2), 101);
    // A remainder of 2^63 or more is read back as negative.
    let mut random = seeded(1 << 63);
    assert_eq!(random.next_i64(0, -1), i64::MIN);
}

#[test]
fn clock_reading_is_cut_to_64_bits() {
    let random = Random::from_clock(Some(5)).expect("a clock reading always seeds");
    assert_eq!(random.get_seed(), 5);
    let random = Random::from_clock(Some((1u128 << 64) + 5)).expect("a clock reading always seeds");
    assert_eq!(random.get_seed(), 5);
    let random = Random::from_clock(Some(u128::MAX)).expect("a clock reading always seeds");
    assert_eq!(random.get_seed(), u64::MAX);
    let random = Random::from_clock(Some(1_761_609_600_000_000_000)).expect("a clock reading always seeds");
    assert_eq!(random.get_seed(), 1_761_609_600_000_000_000);
}

#[test]
fn missing_clock_is_an_environment_error() {
    assert!(matches!(Random::from_clock(None), Err(EnvironmentError::ClockUnavailable)));
}

#[test]
fn new_reads_a_clock_past_the_epoch() {
    let mut random = Random::new().expect("the wall clock lies after the Unix epoch");
    let seed = random.get_seed();
    assert_eq!(random.next_seed(), seed);
}
