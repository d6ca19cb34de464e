//! The integer side of the colour library: the 8-bit pixel and the table of
//! hue sectors that the hexagonal colour models share.

use vstd::prelude::*;
use vstd::string::StringExecFns;

verus! {

/// A colour of four 8-bit channels, each in `[0, 255]`.
#[derive(Clone, Copy, Debug, PartialEq, Eq, Structural)]
pub struct RGBA8 {
    pub r: u8,
    pub g: u8,
    pub b: u8,
    pub a: u8,
}

impl RGBA8 {
    /// The colour with the given channel values.
    pub fn new(r: u8, g: u8, b: u8, a: u8) -> (made: Self)
        ensures
            made == (RGBA8 { r, g, b, a }),
    {
        Self { r, g, b, a }
    }

    /// The text of this colour: `[r: .., g: .., b: .., a: ..]`, each channel
    /// in decimal.
    pub open spec fn text(&self) -> Seq<char> {
        "[r: "@ + decimal(self.r as nat)
            + ", g: "@ + decimal(self.g as nat)
            + ", b: "@ + decimal(self.b as nat)
            + ", a: "@ + decimal(self.a as nat)
            + "]"@
    }

    /// Renders the colour as `[r: .., g: .., b: .., a: ..]`.
    pub fn to_string(&self) -> (text: String)
        ensures
            text@ == self.text(),
    {
        let mut text: String = String::from_str("[r: ");
        text.append(decimal_text(self.r).as_str());
        text.append(", g: ");
        text.append(decimal_text(self.g).as_str());
        text.append(", b: ");
        text.append(decimal_text(self.b).as_str());
        text.append(", a: ");
        text.append(decimal_text(self.a).as_str());
        text.append("]");
        text
    }
}

/// The character of a decimal digit.
pub open spec fn digit(d: nat) -> char
    recommends
        d < 10,
{
    seq!['0', '1', '2', '3', '4', '5', '6', '7', '8', '9'][d as int]
}

/// A number written in decimal, without leading zeros.
pub open spec fn decimal(n: nat) -> Seq<char>
    decreases n,
{
    if n < 10 {
        seq![digit(n)]
    } else {
        decimal(n / 10).push(digit(n % 10))
    }
}

/// The one-character text of a decimal digit.
fn digit_text(d: u8) -> (text: &'static str)
    requires
        d < 10,
    ensures
        text@ == seq![digit(d as nat)],
{
    proof {
        reveal_strlit("0");
        reveal_strlit("1");
        reveal_strlit("2");
        reveal_strlit("3");
        reveal_strlit("4");
        reveal_strlit("5");
        reveal_strlit("6");
        reveal_strlit("7");
        reveal_strlit("8");
        reveal_strlit("9");
    }
    let text: &'static str = match d {
        0 => "0",
        1 => "1",
        2 => "2",
        3 => "3",
        4 => "4",
        5 => "5",
        6 => "6",
        7 => "7",
        8 => "8",
        _ => "9",
    };
    assert(text@ =~= seq![digit(d as nat)]);
    text
}

/// Writes a channel value in decimal.
pub fn decimal_text(value: u8) -> (text: String)
    ensures
        text@ == decimal(value as nat),
{
    let mut text: String = String::new();
    if value >= 100 {
        text.append(digit_text(value / 100));
    }
    if value >= 10 {
        text.append(digit_text((value / 10) % 10));
    }
    text.append(digit_text(value % 10));
    proof {
        reveal_with_fuel(decimal, 3);
        assert(text@ =~= decimal(value as nat));
    }
    text
}

/// Where a hue sector puts its three quantities. The hue circle is cut into
/// six sectors of a sixth of a turn; in each, one channel takes the chroma,
/// one the intermediate value and one zero, before the match value is added
/// to all three:
///
/// | sector | red | green | blue |
/// |--------|-----|-------|------|
/// | 0 | chroma | middle | zero |
/// | 1 | middle | chroma | zero |
/// | 2 | zero | chroma | middle |
/// | 3 | zero | middle | chroma |
/// | 4 | middle | zero | chroma |
/// | 5 | chroma | zero | middle |
///
/// A sector number above five is read as the last sector.
pub open spec fn sector_channels<T>(sector: u8, chroma: T, middle: T, zero: T) -> (T, T, T) {
    if sector == 0 {
        (chroma, middle, zero)
    } else if sector == 1 {
        (middle, chroma, zero)
    } else if sector == 2 {
        (zero, chroma, middle)
    } else if sector == 3 {
        (zero, middle, chroma)
    } else if sector == 4 {
        (middle, zero, chroma)
    } else {
        (chroma, zero, middle)
    }
}

/// Hands the chroma, the intermediate value and zero to the red, green and
/// blue channels as the hue sector asks.
pub fn place_in_sector<T>(sector: u8, chroma: T, middle: T, zero: T) -> (rgb: (T, T, T))
    ensures
        rgb == sector_channels(sector, chroma, middle, zero),
{
    match sector {
        0 => (chroma, middle, zero),
        1 => (middle, chroma, zero),
        2 => (zero, chroma, middle),
        3 => (zero, middle, chroma),
        4 => (middle, zero, chroma),
        _ => (chroma, zero, middle),
    }
}

/// The sector that follows `sector` on the hue circle; the last is followed
/// by the first.
pub open spec fn next_sector(sector: u8) -> u8 {
    if sector < 5 {
        (sector + 1) as u8
    } else {
        0
    }
}

/// Every sector hands out each of its three quantities exactly once: the
/// channels are a rearrangement of chroma, intermediate value and zero.
pub proof fn lemma_sector_rearranges<T>(sector: u8, chroma: T, middle: T, zero: T)
    ensures
        ({
            let (r, g, b) = sector_channels(sector, chroma, middle, zero);
            seq![r, g, b].to_multiset() == seq![chroma, middle, zero].to_multiset()
        }),
{
    let (r, g, b) = sector_channels(sector, chroma, middle, zero);
    let from = seq![chroma, middle, zero];
    let to = seq![r, g, b];
    broadcast use vstd::seq_lib::group_to_multiset_ensures;
    assert(from =~= Seq::empty().push(chroma).push(middle).push(zero));
    assert(to =~= Seq::empty().push(r).push(g).push(b));
    assert(to.to_multiset() =~= from.to_multiset());
}

/// Without saturation nothing depends on the hue: where chroma and
/// intermediate value are both zero, every sector gives the same three
/// channels.
pub proof fn lemma_sector_achromatic<T>(sector: u8, zero: T)
    ensures
        sector_channels(sector, zero, zero, zero) == (zero, zero, zero),
{
}

/// Neighbouring sectors agree on the boundary between them. An even sector
/// ends where the intermediate value has reached the chroma, an odd one where
/// it has fallen to zero; there the sector and the one that follows it, the
/// first after the last, give the same channels.
pub proof fn lemma_sector_boundaries_agree<T>(sector: u8, chroma: T, zero: T)
    requires
        sector < 6,
    ensures
        sector % 2 == 0 ==> sector_channels(sector, chroma, chroma, zero) == sector_channels(
            next_sector(sector),
            chroma,
            chroma,
            zero,
        ),
        sector % 2 == 1 ==> sector_channels(sector, chroma, zero, zero) == sector_channels(
            next_sector(sector),
            chroma,
            zero,
            zero,
        ),
{
}

} // verus!
