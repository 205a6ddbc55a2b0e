//! The driver's end of the bus.
//!
//! A [`Line`] owns a bus and keeps the record of what was asked of it and
//! what it answered. The record is ghost: it costs nothing at run time and
//! exists so that contracts can speak of the transactions a call made. The
//! bus can be reached through [`Line::exchange`] alone, which makes one
//! transaction and adds it to the record; so code that holds a line cannot
//! talk to the bus behind the record's back.

use vstd::prelude::*;

use crate::transport::Transport;

verus! {

/// One write-then-read transaction: what was asked, and how it ended.
pub struct Exchange<E> {
    /// The 7-bit address of the device that was spoken to.
    pub address: u8,
    /// The bytes that were written.
    pub outgoing: Seq<u8>,
    /// The number of bytes that were asked for.
    pub count: nat,
    /// The bytes that came back, or the failure of the bus.
    pub answer: Result<Seq<u8>, E>,
}

/// The outcome of a transaction with its reply bytes as a sequence.
pub open spec fn answer_of<const N: usize, E>(outcome: Result<[u8; N], E>) -> Result<Seq<u8>, E> {
    match outcome {
        Ok(bytes) => Ok(bytes@),
        Err(e) => Err(e),
    }
}

/// The exchange that reads `N` bytes starting at the register `register` of
/// the device at `address`, and ends in `outcome`.
pub open spec fn register_read<const N: usize, E>(
    address: u8,
    register: u8,
    outcome: Result<[u8; N], E>,
) -> Exchange<E> {
    Exchange { address, outgoing: seq![register], count: N as nat, answer: answer_of(outcome) }
}

/// A bus together with the record of the exchanges made on it.
pub struct Line<I2C: Transport> {
    bus: I2C,
    record: Ghost<Seq<Exchange<I2C::Error>>>,
}

impl<I2C: Transport> Line<I2C> {
    /// The bus at the end of the line.
    pub closed spec fn bus(&self) -> I2C {
        self.bus
    }

    /// The exchanges made on the line so far, oldest first.
    pub closed spec fn record(&self) -> Seq<Exchange<I2C::Error>> {
        self.record@
    }

    /// Takes the bus. Nothing is asked of it, and the record starts empty.
    pub fn new(bus: I2C) -> (line: Self)
        ensures
            line.bus() == bus,
            line.record() == Seq::<Exchange<I2C::Error>>::empty(),
    {
        Line { bus, record: Ghost(Seq::empty()) }
    }

    /// Makes one transaction on the bus: writes `outgoing` to the device at
    /// `address`, then reads `N` bytes. The transaction is added to the
    /// record with the outcome that is returned.
    ///
    /// A bus has no contract, so the proof covers the record and the result,
    /// not the bus: that the recorded transaction is the one the bus carried
    /// out is plain from the body, which makes the call and records it, and
    /// is not a thing that was proved.
    pub fn exchange<const N: usize>(&mut self, address: u8, outgoing: &[u8]) -> (outcome: Result<
        [u8; N],
        I2C::Error,
    >)
        ensures
            final(self).record() == old(self).record().push(
                Exchange {
                    address,
                    outgoing: outgoing@,
                    count: N as nat,
                    answer: answer_of(outcome),
                },
            ),
    {
        let outcome = self.bus.transaction::<N>(address, outgoing);
        proof {
            self.record@ = self.record@.push(
                Exchange {
                    address,
                    outgoing: outgoing@,
                    count: N as nat,
                    answer: answer_of(outcome),
                },
            );
        }
        outcome
    }
}

/// An exchange tells its outcome: two outcomes with the same answer are the
/// same outcome.
pub proof fn lemma_answer_tells_outcome<const N: usize, E>(
    a: Result<[u8; N], E>,
    b: Result<[u8; N], E>,
)
    requires
        answer_of(a) == answer_of(b),
    ensures
        a == b,
{
    match (a, b) {
        (Ok(x), Ok(y)) => {
            assert(x@ == y@);
            assert(x =~= y);
        },
        _ => {},
    }
}

} // verus!
