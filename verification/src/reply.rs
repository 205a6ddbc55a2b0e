//! What the outcome of a bus transaction means.
//!
//! A transaction ends in reply bytes or in a failure of the bus. For each
//! thing the driver reports there is a function here from such an outcome to
//! the reported value, once as a specification and once as the code that
//! computes it. Reply bytes are decoded and converted. A failure is handed on
//! as it came: the same error value, nothing added, nothing tried again.

use vstd::prelude::*;

use crate::battery::{is_present, level, spec_is_present, spec_level};
use crate::channel::Channel;
use crate::sample::{decode, sample, Layout};
use crate::status::{enabled, AdcStatus};
use crate::wire::{read_word, word};

verus! {

/// The single byte of a one-byte reply.
pub open spec fn byte_of<E>(outcome: Result<[u8; 1], E>) -> Result<u8, E> {
    match outcome {
        Ok(bytes) => Ok(bytes[0]),
        Err(e) => Err(e),
    }
}

/// The raw sample that a two-byte reply holds under `layout`.
pub open spec fn sample_of<E>(layout: Layout, outcome: Result<[u8; 2], E>) -> Result<u16, E> {
    match outcome {
        Ok(bytes) => Ok(sample(layout, bytes[0], bytes[1]) as u16),
        Err(e) => Err(e),
    }
}

/// The physical value that a two-byte reply means on `channel`.
pub open spec fn reading_of<E>(channel: Channel, outcome: Result<[u8; 2], E>) -> Result<i16, E> {
    match outcome {
        Ok(bytes) => Ok(
            channel.physical(sample(channel.spec_layout(), bytes[0], bytes[1])) as i16,
        ),
        Err(e) => Err(e),
    }
}

/// The physical value that a two-byte reply means on `channel`, as an
/// unsigned number. It is meant for the channels whose values are never
/// negative, which is every channel but the temperature.
pub open spec fn magnitude_of<E>(channel: Channel, outcome: Result<[u8; 2], E>) -> Result<
    u16,
    E,
> {
    match outcome {
        Ok(bytes) => Ok(
            channel.physical(sample(channel.spec_layout(), bytes[0], bytes[1])) as u16,
        ),
        Err(e) => Err(e),
    }
}

/// The charge level that the byte of the level register holds.
pub open spec fn level_of<E>(byte: Result<u8, E>) -> Result<u8, E> {
    match byte {
        Ok(b) => Ok(spec_level(b)),
        Err(e) => Err(e),
    }
}

/// Whether a charge level tells of a battery.
pub open spec fn presence_of<E>(level: Result<u8, E>) -> Result<bool, E> {
    match level {
        Ok(l) => Ok(spec_is_present(l)),
        Err(e) => Err(e),
    }
}

/// The sampling enables that the two bytes of the control register hold, the
/// first byte being the high half of the control word.
pub open spec fn status_of<E>(outcome: Result<[u8; 2], E>) -> Result<AdcStatus, E> {
    match outcome {
        Ok(bytes) => Ok(AdcStatus::spec_new(word(bytes[0], bytes[1]))),
        Err(e) => Err(e),
    }
}

/// The single byte of a one-byte reply.
pub fn to_byte<E>(outcome: Result<[u8; 1], E>) -> (r: Result<u8, E>)
    ensures
        r == byte_of(outcome),
{
    match outcome {
        Ok(bytes) => Ok(bytes[0]),
        Err(e) => Err(e),
    }
}

/// The raw sample that a two-byte reply holds under `layout`.
pub fn to_sample<E>(layout: Layout, outcome: Result<[u8; 2], E>) -> (r: Result<u16, E>)
    ensures
        r == sample_of(layout, outcome),
        outcome matches Ok(bytes) ==> r matches Ok(raw) && raw == sample(
            layout,
            bytes[0],
            bytes[1],
        ),
{
    match outcome {
        Ok(bytes) => Ok(decode(layout, bytes)),
        Err(e) => Err(e),
    }
}

/// The physical value that a two-byte reply means on `channel`.
pub fn to_reading<E>(channel: Channel, outcome: Result<[u8; 2], E>) -> (r: Result<i16, E>)
    ensures
        r == reading_of(channel, outcome),
        outcome matches Ok(bytes) ==> r matches Ok(value) && value == channel.physical(
            sample(channel.spec_layout(), bytes[0], bytes[1]),
        ),
{
    match outcome {
        Ok(bytes) => {
            let raw = decode(channel.layout(), bytes);
            Ok(channel.convert(raw))
        },
        Err(e) => Err(e),
    }
}

/// The physical value that a two-byte reply means on a channel whose values
/// are never negative, which is every channel but the temperature.
pub fn to_magnitude<E>(channel: Channel, outcome: Result<[u8; 2], E>) -> (r: Result<u16, E>)
    requires
        channel != Channel::Temperature,
    ensures
        r == magnitude_of(channel, outcome),
        outcome matches Ok(bytes) ==> r matches Ok(value) && value == channel.physical(
            sample(channel.spec_layout(), bytes[0], bytes[1]),
        ),
{
    match to_reading(channel, outcome) {
        Ok(value) => Ok(value as u16),
        Err(e) => Err(e),
    }
}

/// The charge level that the byte of the level register holds.
pub fn to_level<E>(byte: Result<u8, E>) -> (r: Result<u8, E>)
    ensures
        r == level_of(byte),
{
    match byte {
        Ok(b) => Ok(level(b)),
        Err(e) => Err(e),
    }
}

/// Whether a charge level tells of a battery: it does unless it is the level
/// reserved for a missing one.
pub fn to_presence<E>(level: Result<u8, E>) -> (r: Result<bool, E>)
    ensures
        r == presence_of(level),
{
    match level {
        Ok(l) => Ok(is_present(l)),
        Err(e) => Err(e),
    }
}

/// The sampling enables that the two bytes of the control register hold, the
/// first byte being the high half of the control word.
pub fn to_status<E>(outcome: Result<[u8; 2], E>) -> (r: Result<AdcStatus, E>)
    ensures
        r == status_of(outcome),
        outcome matches Ok(bytes) ==> r matches Ok(status) && status@ == enabled(
            word(bytes[0], bytes[1]),
        ),
{
    match outcome {
        Ok(bytes) => Ok(AdcStatus::new(read_word(&bytes))),
        Err(e) => Err(e),
    }
}

/// A failure of the bus surfaces unchanged: whatever the driver was reading,
/// the error it reports is the error the bus gave.
pub proof fn lemma_failure_surfaces_unchanged<E>(e: E, channel: Channel, layout: Layout)
    ensures
        byte_of(Err::<[u8; 1], E>(e)) == Err::<u8, E>(e),
        sample_of(layout, Err::<[u8; 2], E>(e)) == Err::<u16, E>(e),
        reading_of(channel, Err::<[u8; 2], E>(e)) == Err::<i16, E>(e),
        magnitude_of(channel, Err::<[u8; 2], E>(e)) == Err::<u16, E>(e),
        level_of(Err::<u8, E>(e)) == Err::<u8, E>(e),
        presence_of(Err::<u8, E>(e)) == Err::<bool, E>(e),
        status_of(Err::<[u8; 2], E>(e)) == Err::<AdcStatus, E>(e),
        level_of(byte_of(Err::<[u8; 1], E>(e))) == Err::<u8, E>(e),
        presence_of(level_of(byte_of(Err::<[u8; 1], E>(e)))) == Err::<bool, E>(e),
{
}

/// A reply is never turned into a failure: where the bus delivered bytes, the
/// driver reports a value.
pub proof fn lemma_reply_gives_value<E>(
    one: [u8; 1],
    two: [u8; 2],
    channel: Channel,
    layout: Layout,
)
    ensures
        byte_of(Ok::<[u8; 1], E>(one)) is Ok,
        sample_of(layout, Ok::<[u8; 2], E>(two)) is Ok,
        reading_of(channel, Ok::<[u8; 2], E>(two)) is Ok,
        magnitude_of(channel, Ok::<[u8; 2], E>(two)) is Ok,
        status_of(Ok::<[u8; 2], E>(two)) is Ok,
        presence_of(level_of(byte_of(Ok::<[u8; 1], E>(one)))) is Ok,
{
}

/// The value reported for a reply is the converted sample itself: it fits the
/// reported type, so nothing is cut off.
pub proof fn lemma_reading_exact<E>(channel: Channel, bytes: [u8; 2])
    ensures
        reading_of(channel, Ok::<[u8; 2], E>(bytes)) matches Ok(value) && value
            == channel.physical(sample(channel.spec_layout(), bytes[0], bytes[1])),
        channel != Channel::Temperature ==> (magnitude_of(channel, Ok::<[u8; 2], E>(bytes))
            matches Ok(value) && value == channel.physical(
            sample(channel.spec_layout(), bytes[0], bytes[1]),
        )),
        sample_of(channel.spec_layout(), Ok::<[u8; 2], E>(bytes)) matches Ok(raw) && raw
            == sample(channel.spec_layout(), bytes[0], bytes[1]),
{
}

/// A battery is reported present for every level but the reserved one.
pub proof fn lemma_present_for_every_other_level<E>(level: u8)
    ensures
        presence_of(Ok::<u8, E>(level)) == Ok::<bool, E>(level != 0x7f),
{
}

} // verus!
