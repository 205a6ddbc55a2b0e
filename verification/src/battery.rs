//! The battery charge level.
//!
//! The level register is one byte. Its top bit switches the sampling of the
//! level on and off and says nothing of the charge; the seven bits below it
//! hold the level in percent. One value that no percentage reaches is set
//! aside: the controller reports it when it finds no battery.

use vstd::prelude::*;

verus! {

/// The level that the controller reports when no battery is connected.
pub const BATTERY_LEVEL_MISSING: u8 = 0x7f;

/// The level that the register byte `byte` holds: the byte without its top
/// bit.
pub open spec fn spec_level(byte: u8) -> u8 {
    (byte % 128) as u8
}

/// Extracts the charge level from the byte of the level register.
///
/// The result is a percentage, or [`BATTERY_LEVEL_MISSING`].
#[verifier::when_used_as_spec(spec_level)]
pub fn level(byte: u8) -> (l: u8)
    ensures
        l == spec_level(byte),
        l <= 0x7f,
{
    assert(byte & 0x7f == byte % 128) by (bit_vector);
    byte & 0b0111_1111
}

/// Whether `level` is the value that stands for a missing battery.
pub open spec fn spec_is_missing(level: u8) -> bool {
    level == BATTERY_LEVEL_MISSING
}

/// Whether `level` is the value that stands for a missing battery.
#[verifier::when_used_as_spec(spec_is_missing)]
pub fn is_missing(level: u8) -> (missing: bool)
    ensures
        missing == spec_is_missing(level),
{
    level == BATTERY_LEVEL_MISSING
}

/// Whether `level` tells of a battery: it does unless it is the value that
/// stands for a missing one.
pub open spec fn spec_is_present(level: u8) -> bool {
    level != BATTERY_LEVEL_MISSING
}

/// Whether `level` tells of a battery.
#[verifier::when_used_as_spec(spec_is_present)]
pub fn is_present(level: u8) -> (present: bool)
    ensures
        present == spec_is_present(level),
{
    level != BATTERY_LEVEL_MISSING
}

/// A battery is present exactly when it is not missing, and every level but
/// the reserved one tells of a battery; a percentage always does.
pub proof fn lemma_present_unless_missing(level: u8)
    ensures
        spec_is_present(level) <==> !spec_is_missing(level),
        level != 0x7f ==> spec_is_present(level),
        level <= 100 ==> spec_is_present(level),
{
}

/// The top bit of the register byte does not reach the level: a byte and the
/// same byte with the top bit flipped hold the same level.
pub proof fn lemma_control_bit_ignored(byte: u8)
    ensures
        spec_level(byte ^ 0x80) == spec_level(byte),
        spec_level(spec_level(byte)) == spec_level(byte),
{
    assert((byte ^ 0x80) % 128 == byte % 128) by (bit_vector);
}

/// A byte whose seven low bits are all set holds the reserved level, whatever
/// its top bit.
pub proof fn lemma_missing_bytes(byte: u8)
    ensures
        spec_is_missing(spec_level(byte)) <==> (byte == 0x7f || byte == 0xff),
{
}

} // verus!
