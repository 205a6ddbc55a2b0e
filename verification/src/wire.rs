//! Byte order of multi-byte registers.

use byteorder::{BigEndian, ByteOrder};
use vstd::prelude::*;

verus! {

/// The 16-bit word whose high byte is `hi` and whose low byte is `lo`.
pub open spec fn word(hi: u8, lo: u8) -> u16 {
    (hi * 256 + lo) as u16
}

/// Reads two bytes as a 16-bit word, the first byte high.
///
/// The body calls `byteorder::BigEndian::read_u16`. The contract states what
/// big-endian order means, and what that function computes from the first
/// two bytes of its argument: the first byte times 256 plus the second. It
/// is taken on trust.
#[verifier::external_body]
pub(crate) fn read_word(bytes: &[u8; 2]) -> (w: u16)
    ensures
        w == word(bytes[0], bytes[1]),
{
    BigEndian::read_u16(bytes)
}

} // verus!
