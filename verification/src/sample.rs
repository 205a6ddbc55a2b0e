//! Decoding of raw converter samples.
//!
//! The controller answers a sample request with two bytes. The first byte
//! holds the high bits of the sample; the low bits sit at the bottom of the
//! second byte, whose remaining bits carry nothing. How many low bits there
//! are differs between channels, and a decoder that assumes the wrong width
//! yields values that look plausible and are wrong, so the width is always
//! named: every decode takes a [`Layout`].

use vstd::prelude::*;

verus! {

/// How a two-byte reply packs a sample.
#[derive(Clone, Copy, Debug, PartialEq, Eq, Structural)]
pub enum Layout {
    /// Four low bits in the second byte. Used by all channels but one.
    LowNibble,
    /// Five low bits in the second byte. Used by the battery discharge current.
    LowQuintet,
}

impl Layout {
    /// The weight of the first byte: two to the power of the low bit count.
    pub open spec fn radix(self) -> int {
        match self {
            Layout::LowNibble => 16,
            Layout::LowQuintet => 32,
        }
    }

    /// The largest sample that the layout can hold.
    pub open spec fn max(self) -> u16 {
        match self {
            Layout::LowNibble => 0x0fff,
            Layout::LowQuintet => 0x1fff,
        }
    }
}

/// The sample that the reply bytes `hi`, `lo` hold under `layout`: the first
/// byte counts `radix` each, the low bits of the second byte count one each,
/// and its high bits count nothing.
pub open spec fn sample(layout: Layout, hi: u8, lo: u8) -> int {
    hi * layout.radix() + (lo as int) % layout.radix()
}

/// Whether `raw` is the sample of some reply under `layout`.
pub open spec fn is_sample(layout: Layout, raw: int) -> bool {
    exists|hi: u8, lo: u8| raw == sample(layout, hi, lo)
}

/// Decodes the two reply bytes of a sample request.
pub fn decode(layout: Layout, reply: [u8; 2]) -> (raw: u16)
    ensures
        raw == sample(layout, reply[0], reply[1]),
        raw <= layout.max(),
{
    let hi: u16 = reply[0] as u16;
    let lo: u16 = reply[1] as u16;
    match layout {
        Layout::LowNibble => {
            assert(((hi << 4) | (lo & 0x0f)) == hi * 16 + lo % 16) by (bit_vector)
                requires
                    hi < 256,
            ;
            (hi << 4) | (lo & 0x0f)
        },
        Layout::LowQuintet => {
            assert(((hi << 5) | (lo & 0x1f)) == hi * 32 + lo % 32) by (bit_vector)
                requires
                    hi < 256,
            ;
            (hi << 5) | (lo & 0x1f)
        },
    }
}

/// A sample never exceeds the largest value of its layout.
pub proof fn lemma_sample_range(layout: Layout, hi: u8, lo: u8)
    ensures
        0 <= sample(layout, hi, lo) <= layout.max(),
{
}

/// The layout's range has no holes: the samples are exactly the values from
/// zero to the layout's largest.
pub proof fn lemma_samples_fill_range(layout: Layout, raw: int)
    ensures
        is_sample(layout, raw) <==> 0 <= raw <= layout.max(),
{
    if 0 <= raw <= layout.max() {
        match layout {
            Layout::LowNibble => {
                assert(raw == sample(layout, (raw / 16) as u8, (raw % 16) as u8));
            },
            Layout::LowQuintet => {
                assert(raw == sample(layout, (raw / 32) as u8, (raw % 32) as u8));
            },
        }
    }
}

/// Only the low bits of the second byte count: two replies that agree on the
/// first byte and on those bits hold the same sample.
pub proof fn lemma_high_bits_of_low_byte_ignored(layout: Layout, hi: u8, lo: u8, other: u8)
    requires
        (lo as int) % layout.radix() == (other as int) % layout.radix(),
    ensures
        sample(layout, hi, lo) == sample(layout, hi, other),
{
}

/// Two replies hold the same sample only if they agree on the first byte and
/// on the low bits of the second.
pub proof fn lemma_sample_determines_bits(layout: Layout, hi: u8, lo: u8, hi2: u8, lo2: u8)
    requires
        sample(layout, hi, lo) == sample(layout, hi2, lo2),
    ensures
        hi == hi2,
        (lo as int) % layout.radix() == (lo2 as int) % layout.radix(),
{
}

/// A reply whose first byte stays below 64 holds a sample of at most ten bits
/// under the nibble layout and of at most eleven under the quintet layout.
pub proof fn lemma_sample_short_range(layout: Layout, hi: u8, lo: u8)
    requires
        hi < 64,
    ensures
        layout == Layout::LowNibble ==> sample(layout, hi, lo) <= 1023,
        layout == Layout::LowQuintet ==> sample(layout, hi, lo) <= 2047,
{
}

} // verus!
