//! The bus that the controller hangs on.

use vstd::prelude::*;

verus! {

/// A two-wire bus that can carry out a write-then-read transaction.
///
/// The driver asks nothing else of a bus, and promises nothing of what a bus
/// answers: a reply is whatever bytes the device sent, and a failure is
/// whatever the bus makes of it.
pub trait Transport {
    /// What the bus reports when a transaction fails.
    type Error;

    /// Writes `outgoing` to the device at the 7-bit address `address`, then
    /// reads `N` bytes from it, without releasing the bus in between.
    fn transaction<const N: usize>(&mut self, address: u8, outgoing: &[u8]) -> Result<
        [u8; N],
        Self::Error,
    >;
}

} // verus!
