//! A deterministic xorshift generator whose whole state is one 64-bit seed.

use std::time::{Duration, SystemTime, SystemTimeError};
use vstd::arithmetic::div_mod::lemma_mod_bound;
use vstd::prelude::*;

verus! {

/// `std::time::SystemTime`, a reading of the wall clock, carried as an
/// opaque value.
#[verifier::external_type_specification]
#[verifier::external_body]
pub struct ExSystemTime(SystemTime);

/// `std::time::SystemTimeError`, the error of a clock reading that lies
/// before the instant it is measured from, carried as an opaque value.
#[verifier::external_type_specification]
#[verifier::external_body]
pub struct ExSystemTimeError(SystemTimeError);

/// `SystemTime::now` reads the wall clock. Nothing is claimed of the reading.
pub assume_specification[ SystemTime::now ]() -> (now: SystemTime);

/// `SystemTime::duration_since` measures from `earlier` to `time`, or fails
/// where `earlier` is the later of the two. Nothing is claimed of which.
pub assume_specification[ SystemTime::duration_since ](
    time: &SystemTime,
    earlier: SystemTime,
) -> (elapsed: Result<Duration, SystemTimeError>);

/// `Duration::as_nanos` gives a duration in whole nanoseconds. Nothing is
/// claimed of the number.
pub assume_specification[ Duration::as_nanos ](duration: &Duration) -> (nanos: u128);

/// The constant `std::time::UNIX_EPOCH`, the instant that seeds are
/// measured from.
#[verifier::external_body]
fn unix_epoch() -> (epoch: SystemTime) {
    std::time::UNIX_EPOCH
}

/// Why a generator could not be seeded from the environment.
#[derive(Clone, Copy, Debug, PartialEq, Eq, Structural)]
pub enum EnvironmentError {
    /// The wall clock reads a time before the Unix epoch.
    ClockUnavailable,
}

/// The seed taken from a clock reading in nanoseconds: its low 64 bits.
pub open spec fn seed_of_nanos(nanos: u128) -> u64 {
    (nanos % 0x1_0000_0000_0000_0000) as u64
}

/// What seeding makes of a clock reading: from a reading in nanoseconds a
/// generator that holds its low 64 bits, from a missing reading the error of
/// an unavailable clock.
pub open spec fn seeded_from(reading: Option<u128>, made: Result<Random, EnvironmentError>) -> bool {
    match reading {
        Some(nanos) => made matches Ok(random) && random.seed() == seed_of_nanos(nanos),
        None => made matches Err(error) && error == EnvironmentError::ClockUnavailable,
    }
}

/// One step of the generator: `s ^= s << 12; s ^= s >> 25; s ^= s << 27`,
/// every shift taken in 64 bits, with the bits shifted out dropped.
pub open spec fn xorshift(s: u64) -> u64 {
    let a = s ^ (s << 12);
    let b = a ^ (a >> 25);
    b ^ (b << 27)
}

/// The seed that a generator started at `seed` holds after `n` draws.
pub open spec fn seed_after(seed: u64, n: nat) -> u64
    decreases n,
{
    if n == 0 {
        seed
    } else {
        xorshift(seed_after(seed, (n - 1) as nat))
    }
}

/// A pseudo-random generator. Its observable state is its seed.
pub struct Random {
    seed: u64,
}

impl Random {
    /// The seed that the next draw will return.
    pub closed spec fn seed(&self) -> u64 {
        self.seed
    }

    /// A generator seeded from the wall clock: the nanoseconds since the
    /// Unix epoch, reduced to 64 bits. Fails where the clock cannot give
    /// them.
    ///
    /// Which reading the clock gives depends on the moment of the call, so
    /// the outcome is tied to some reading, not to a given one: it is what
    /// [`Random::from_clock`] makes of the reading that was taken.
    pub fn new() -> (made: Result<Random, EnvironmentError>)
        ensures
            exists|reading: Option<u128>| #[trigger] seeded_from(reading, made),
    {
        let now = SystemTime::now();
        let reading: Option<u128> = match now.duration_since(unix_epoch()) {
            Ok(elapsed) => Some(elapsed.as_nanos()),
            Err(_) => None,
        };
        let made = Random::from_clock(reading);
        assert(seeded_from(reading, made));
        made
    }

    /// A generator seeded from a clock reading in nanoseconds, where there
    /// is one; the error of an unavailable clock where there is none.
    pub fn from_clock(reading: Option<u128>) -> (made: Result<Random, EnvironmentError>)
        ensures
            seeded_from(reading, made),
    {
        match reading {
            Some(nanos) => {
                assert(nanos as u64 == (nanos % 0x1_0000_0000_0000_0000) as u64) by (bit_vector);
                Ok(Random { seed: #[verifier::truncate] (nanos as u64) })
            },
            None => Err(EnvironmentError::ClockUnavailable),
        }
    }

    /// Returns the current seed without advancing the generator.
    pub fn get_seed(&self) -> (seed: u64)
        ensures
            seed == self.seed(),
    {
        self.seed
    }

    /// Replaces the seed. Any value is accepted.
    pub fn set_seed(&mut self, seed: u64)
        ensures
            final(self).seed() == seed,
    {
        self.seed = seed;
    }

    /// Draws one value: returns the seed held before the call and advances
    /// the state by one xorshift step.
    #[inline(always)]
    pub fn next_seed(&mut self) -> (drawn: u64)
        ensures
            drawn == old(self).seed(),
            final(self).seed() == xorshift(old(self).seed()),
    {
        let ret: u64 = self.seed;
        let mut seed: u64 = ret;
        seed = seed ^ (seed << 12);
        seed = seed ^ (seed >> 25);
        seed = seed ^ (seed << 27);
        self.seed = seed;
        ret
    }

    /// Draws a `u64` from `[from, from + range)`: `from + (draw % range)`.
    ///
    /// A zero `range` has no remainder to take, and the sum must fit in 64
    /// bits; both are the caller's to ensure.
    pub fn next_u64(&mut self, from: u64, range: u64) -> (value: u64)
        requires
            range != 0,
            from + u64_offset(old(self).seed(), range) <= u64::MAX,
        ensures
            value == from + u64_offset(old(self).seed(), range),
            from <= value < from + range,
            final(self).seed() == xorshift(old(self).seed()),
    {
        let draw: u64 = self.next_seed();
        proof {
            lemma_u64_offset_in_range(draw, range);
        }
        from + draw % range
    }

    /// Draws an `i64`: `from` plus the draw reduced by `range`, where `range`
    /// is first reinterpreted as an unsigned 64-bit value and the remainder
    /// is then reinterpreted as a signed one. For a positive `range` the
    /// result lies in `[from, from + range)`.
    ///
    /// A zero `range` has no remainder to take, and the sum must fit in 64
    /// bits; both are the caller's to ensure.
    pub fn next_i64(&mut self, from: i64, range: i64) -> (value: i64)
        requires
            range != 0,
            i64::MIN <= from + i64_offset(old(self).seed(), range) <= i64::MAX,
        ensures
            value == from + i64_offset(old(self).seed(), range),
            range > 0 ==> from <= value < from + range,
            final(self).seed() == xorshift(old(self).seed()),
    {
        let draw: u64 = self.next_seed();
        let modulus: u64 = #[verifier::truncate] (range as u64);
        proof {
            lemma_unsigned_image(range);
        }
        let rest: u64 = draw % modulus;
        let offset: i64 = #[verifier::truncate] (rest as i64);
        proof {
            lemma_signed_image(rest);
            if range > 0 {
                lemma_i64_offset_in_range(draw, range);
            }
        }
        from + offset
    }
}

/// The first `n` values drawn by a generator that starts at `seed`.
pub open spec fn draws(seed: u64, n: nat) -> Seq<u64> {
    Seq::new(n, |i: int| seed_after(seed, i as nat))
}

/// Advancing once and then `n` times is advancing `n + 1` times.
pub proof fn lemma_seed_after_step(seed: u64, n: nat)
    ensures
        seed_after(xorshift(seed), n) == seed_after(seed, n + 1),
    decreases n,
{
    if n == 0 {
        assert(seed_after(seed, 1) == xorshift(seed_after(seed, 0)));
    } else {
        lemma_seed_after_step(seed, (n - 1) as nat);
        assert(seed_after(seed, n + 1) == xorshift(seed_after(seed, n)));
    }
}

/// The values drawn are the value of one draw followed by the values drawn
/// from the state that the draw leaves behind.
pub proof fn lemma_draws_unfold(seed: u64, n: nat)
    ensures
        draws(seed, n + 1) == seq![seed] + draws(xorshift(seed), n),
{
    let whole = draws(seed, n + 1);
    let parts = seq![seed] + draws(xorshift(seed), n);
    assert forall|i: int| 0 <= i < n + 1 implies whole[i] == parts[i] by {
        if i > 0 {
            lemma_seed_after_step(seed, (i - 1) as nat);
        }
    }
    assert(whole =~= parts);
}

/// Two generators that hold the same seed draw the same values, however many
/// are drawn, and the first value drawn is that seed.
pub proof fn lemma_same_seed_same_draws(a: Random, b: Random, n: nat)
    requires
        a.seed() == b.seed(),
    ensures
        draws(a.seed(), n) == draws(b.seed(), n),
        n > 0 ==> draws(a.seed(), n)[0] == a.seed(),
{
}

/// What a draw adds to the lower bound of an unsigned range.
pub open spec fn u64_offset(draw: u64, range: u64) -> u64 {
    draw % range
}

/// A signed 64-bit value read as unsigned: a negative one is raised by
/// `2^64`.
pub open spec fn unsigned_image(value: i64) -> int {
    if value >= 0 {
        value as int
    } else {
        value + 0x1_0000_0000_0000_0000
    }
}

/// An unsigned 64-bit value read as signed: one from `2^63` on is lowered by
/// `2^64`.
pub open spec fn signed_image(value: u64) -> int {
    if value < 0x8000_0000_0000_0000 {
        value as int
    } else {
        value - 0x1_0000_0000_0000_0000
    }
}

/// What a draw adds to the lower bound of a signed range: the remainder of
/// the draw by `range` read as unsigned, itself read as signed.
pub open spec fn i64_offset(draw: u64, range: i64) -> int {
    signed_image((draw as int % unsigned_image(range)) as u64)
}

/// An unsigned offset is smaller than its range.
pub proof fn lemma_u64_offset_in_range(draw: u64, range: u64)
    requires
        range != 0,
    ensures
        u64_offset(draw, range) < range,
{
    lemma_mod_bound(draw as int, range as int);
}

/// The cast of an `i64` to `u64` is its unsigned image, which is zero for
/// zero alone.
proof fn lemma_unsigned_image(value: i64)
    ensures
        value as u64 == unsigned_image(value),
        value != 0 ==> unsigned_image(value) != 0,
{
    assert(value as u64 == unsigned_image(value)) by (bit_vector);
}

/// The cast of a `u64` to `i64` is its signed image.
proof fn lemma_signed_image(value: u64)
    ensures
        value as i64 == signed_image(value),
{
    assert(value as i64 == signed_image(value)) by (bit_vector);
}

/// For a positive range a signed offset is non-negative and smaller than the
/// range.
pub proof fn lemma_i64_offset_in_range(draw: u64, range: i64)
    requires
        range > 0,
    ensures
        0 <= i64_offset(draw, range) < range,
{
    lemma_mod_bound(draw as int, range as int);
}

} // verus!
