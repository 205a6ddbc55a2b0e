//! The device facade: one operation per quantity.
//!
//! Every operation makes exactly one exchange on the bus and reports what its
//! outcome means. Nothing is kept between calls. What a bus answers is not
//! for the driver to know, so each contract speaks of the outcome as of some
//! value: the call added one exchange to the handle's record, a read of the
//! operation's own register at the handle's address, and the report is the
//! meaning of that exchange's outcome under the rules of [`crate::reply`].

use vstd::prelude::*;

use crate::channel::Channel;
use crate::line::{lemma_answer_tells_outcome, register_read, Exchange, Line};
use crate::registers::Register;
use crate::reply::{
    byte_of, level_of, magnitude_of, presence_of, reading_of, sample_of, status_of, to_byte,
    to_level, to_magnitude, to_presence, to_reading, to_sample, to_status,
};
use crate::sample::{is_sample, Layout};
use crate::status::AdcStatus;
use crate::transport::Transport;

verus! {

/// An AXP209 on a bus.
///
/// The handle owns the bus and remembers the address at which the controller
/// answers.
pub struct Axp209<I2C: Transport> {
    device: Line<I2C>,
    address: u8,
}

impl<I2C: Transport> Axp209<I2C> {
    /// The bus address at which the controller answers.
    pub closed spec fn address(&self) -> u8 {
        self.address
    }

    /// The bus that the handle owns.
    pub closed spec fn bus(&self) -> I2C {
        self.device.bus()
    }

    /// The exchanges that the handle has made on its bus, oldest first.
    pub closed spec fn exchanges(&self) -> Seq<Exchange<I2C::Error>> {
        self.device.record()
    }

    /// Whether `after` is the handle `self` after one more exchange and
    /// nothing else: a read of `N` bytes at `register`, made at the handle's
    /// address, that ended in `outcome`.
    pub open spec fn read_once<const N: usize>(
        &self,
        after: &Self,
        register: u8,
        outcome: Result<[u8; N], I2C::Error>,
    ) -> bool {
        &&& after.address() == self.address()
        &&& after.exchanges() == self.exchanges().push(
            register_read(self.address(), register, outcome),
        )
    }

    /// Takes the bus `dev` and the 7-bit address of the controller on it.
    ///
    /// The handle owns the bus from here on, in the state in which it was
    /// given: making a handle asks nothing of the bus.
    pub fn new(dev: I2C, address: u8) -> (pmic: Self)
        ensures
            pmic.address() == address,
            pmic.bus() == dev,
            pmic.exchanges() == Seq::<Exchange<I2C::Error>>::empty(),
    {
        Axp209 { device: Line::new(dev), address: address }
    }

    /// Reads `N` bytes, starting at the register `register`, in one
    /// transaction: the register's address is written, then the bytes are
    /// read. The outcome is handed back as it came.
    pub fn read_bytes<const N: usize>(&mut self, register: u8) -> (outcome: Result<
        [u8; N],
        I2C::Error,
    >)
        ensures
            old(self).read_once(final(self), register, outcome),
    {
        let outgoing: [u8; 1] = [register];
        assert(outgoing@ =~= seq![register]);
        self.device.exchange::<N>(self.address, outgoing.as_slice())
    }

    /// Reads the one byte of the register `send`.
    pub fn write_read_byte(&mut self, send: u8) -> (r: Result<u8, I2C::Error>)
        ensures
            final(self).address() == old(self).address(),
            exists|outcome: Result<[u8; 1], I2C::Error>|
                r == #[trigger] byte_of(outcome) && old(self).read_once(
                    final(self),
                    send,
                    outcome,
                ),
    {
        let outcome = self.read_bytes::<1>(send);
        to_byte(outcome)
    }

    /// Reads which converter inputs are being sampled.
    pub fn adc_control(&mut self) -> (r: Result<AdcStatus, I2C::Error>)
        ensures
            final(self).address() == old(self).address(),
            exists|outcome: Result<[u8; 2], I2C::Error>|
                r == #[trigger] status_of(outcome) && old(self).read_once(
                    final(self),
                    Register::AdcControl.spec_address(),
                    outcome,
                ),
    {
        let outcome = self.read_bytes::<2>(Register::AdcControl.address());
        to_status(outcome)
    }

    /// Reads the raw sample at `register`, which is meant to be a sample
    /// register that packs four low bits into its second byte.
    pub fn get_adc_10bits(&mut self, register: u8) -> (r: Result<u16, I2C::Error>)
        ensures
            final(self).address() == old(self).address(),
            exists|outcome: Result<[u8; 2], I2C::Error>|
                r == #[trigger] sample_of(Layout::LowNibble, outcome) && old(self).read_once(
                    final(self),
                    register,
                    outcome,
                ),
            r matches Ok(raw) ==> is_sample(Layout::LowNibble, raw as int),
    {
        let outcome = self.read_bytes::<2>(register);
        to_sample(Layout::LowNibble, outcome)
    }

    /// Battery discharge current, in milliamps.
    pub fn battery_discharging_current(&mut self) -> (r: Result<u16, I2C::Error>)
        ensures
            final(self).address() == old(self).address(),
            exists|outcome: Result<[u8; 2], I2C::Error>|
                r == #[trigger] magnitude_of(Channel::BatteryDischargeCurrent, outcome) && old(self).read_once(
                    final(self),
                    Channel::BatteryDischargeCurrent.spec_register().spec_address(),
                    outcome,
                ),
            r matches Ok(ma) ==> Channel::BatteryDischargeCurrent.is_reading(ma as int),
    {
        let outcome = self.read_bytes::<2>(Channel::BatteryDischargeCurrent.register().address());
        to_magnitude(Channel::BatteryDischargeCurrent, outcome)
    }

    /// Battery voltage, in millivolts.
    pub fn battery_voltage(&mut self) -> (r: Result<u16, I2C::Error>)
        ensures
            final(self).address() == old(self).address(),
            exists|outcome: Result<[u8; 2], I2C::Error>|
                r == #[trigger] magnitude_of(Channel::BatteryVoltage, outcome) && old(self).read_once(
                    final(self),
                    Channel::BatteryVoltage.spec_register().spec_address(),
                    outcome,
                ),
            r matches Ok(mv) ==> Channel::BatteryVoltage.is_reading(mv as int),
    {
        let outcome = self.read_bytes::<2>(Channel::BatteryVoltage.register().address());
        to_magnitude(Channel::BatteryVoltage, outcome)
    }

    /// Battery charge current, in milliamps.
    pub fn battery_charging_current(&mut self) -> (r: Result<u16, I2C::Error>)
        ensures
            final(self).address() == old(self).address(),
            exists|outcome: Result<[u8; 2], I2C::Error>|
                r == #[trigger] magnitude_of(Channel::BatteryChargeCurrent, outcome) && old(self).read_once(
                    final(self),
                    Channel::BatteryChargeCurrent.spec_register().spec_address(),
                    outcome,
                ),
            r matches Ok(ma) ==> Channel::BatteryChargeCurrent.is_reading(ma as int),
    {
        let outcome = self.read_bytes::<2>(Channel::BatteryChargeCurrent.register().address());
        to_magnitude(Channel::BatteryChargeCurrent, outcome)
    }

    /// AC-in voltage, in millivolts.
    pub fn acin_voltage(&mut self) -> (r: Result<u16, I2C::Error>)
        ensures
            final(self).address() == old(self).address(),
            exists|outcome: Result<[u8; 2], I2C::Error>|
                r == #[trigger] magnitude_of(Channel::AcinVoltage, outcome) && old(self).read_once(
                    final(self),
                    Channel::AcinVoltage.spec_register().spec_address(),
                    outcome,
                ),
            r matches Ok(mv) ==> Channel::AcinVoltage.is_reading(mv as int),
    {
        let outcome = self.read_bytes::<2>(Channel::AcinVoltage.register().address());
        to_magnitude(Channel::AcinVoltage, outcome)
    }

    /// AC-in current, in milliamps.
    pub fn acin_current(&mut self) -> (r: Result<u16, I2C::Error>)
        ensures
            final(self).address() == old(self).address(),
            exists|outcome: Result<[u8; 2], I2C::Error>|
                r == #[trigger] magnitude_of(Channel::AcinCurrent, outcome) && old(self).read_once(
                    final(self),
                    Channel::AcinCurrent.spec_register().spec_address(),
                    outcome,
                ),
            r matches Ok(ma) ==> Channel::AcinCurrent.is_reading(ma as int),
    {
        let outcome = self.read_bytes::<2>(Channel::AcinCurrent.register().address());
        to_magnitude(Channel::AcinCurrent, outcome)
    }

    /// USB-in voltage, in millivolts.
    pub fn vbus_voltage(&mut self) -> (r: Result<u16, I2C::Error>)
        ensures
            final(self).address() == old(self).address(),
            exists|outcome: Result<[u8; 2], I2C::Error>|
                r == #[trigger] magnitude_of(Channel::VbusVoltage, outcome) && old(self).read_once(
                    final(self),
                    Channel::VbusVoltage.spec_register().spec_address(),
                    outcome,
                ),
            r matches Ok(mv) ==> Channel::VbusVoltage.is_reading(mv as int),
    {
        let outcome = self.read_bytes::<2>(Channel::VbusVoltage.register().address());
        to_magnitude(Channel::VbusVoltage, outcome)
    }

    /// USB-in current, in milliamps.
    pub fn vbus_current(&mut self) -> (r: Result<u16, I2C::Error>)
        ensures
            final(self).address() == old(self).address(),
            exists|outcome: Result<[u8; 2], I2C::Error>|
                r == #[trigger] magnitude_of(Channel::VbusCurrent, outcome) && old(self).read_once(
                    final(self),
                    Channel::VbusCurrent.spec_register().spec_address(),
                    outcome,
                ),
            r matches Ok(ma) ==> Channel::VbusCurrent.is_reading(ma as int),
    {
        let outcome = self.read_bytes::<2>(Channel::VbusCurrent.register().address());
        to_magnitude(Channel::VbusCurrent, outcome)
    }

    /// Die temperature, in degrees Celsius.
    pub fn temperature(&mut self) -> (r: Result<i16, I2C::Error>)
        ensures
            final(self).address() == old(self).address(),
            exists|outcome: Result<[u8; 2], I2C::Error>|
                r == #[trigger] reading_of(Channel::Temperature, outcome) && old(self).read_once(
                    final(self),
                    Channel::Temperature.spec_register().spec_address(),
                    outcome,
                ),
            r matches Ok(celsius) ==> Channel::Temperature.is_reading(celsius as int),
    {
        let outcome = self.read_bytes::<2>(Channel::Temperature.register().address());
        to_reading(Channel::Temperature, outcome)
    }

    /// Voltage at the first auxiliary input, in millivolts.
    pub fn gpio0_voltage(&mut self) -> (r: Result<u16, I2C::Error>)
        ensures
            final(self).address() == old(self).address(),
            exists|outcome: Result<[u8; 2], I2C::Error>|
                r == #[trigger] magnitude_of(Channel::Gpio0Voltage, outcome) && old(self).read_once(
                    final(self),
                    Channel::Gpio0Voltage.spec_register().spec_address(),
                    outcome,
                ),
            r matches Ok(mv) ==> Channel::Gpio0Voltage.is_reading(mv as int),
    {
        let outcome = self.read_bytes::<2>(Channel::Gpio0Voltage.register().address());
        to_magnitude(Channel::Gpio0Voltage, outcome)
    }

    /// Voltage at the second auxiliary input, in millivolts.
    pub fn gpio1_voltage(&mut self) -> (r: Result<u16, I2C::Error>)
        ensures
            final(self).address() == old(self).address(),
            exists|outcome: Result<[u8; 2], I2C::Error>|
                r == #[trigger] magnitude_of(Channel::Gpio1Voltage, outcome) && old(self).read_once(
                    final(self),
                    Channel::Gpio1Voltage.spec_register().spec_address(),
                    outcome,
                ),
            r matches Ok(mv) ==> Channel::Gpio1Voltage.is_reading(mv as int),
    {
        let outcome = self.read_bytes::<2>(Channel::Gpio1Voltage.register().address());
        to_magnitude(Channel::Gpio1Voltage, outcome)
    }

    /// Battery charge level: a percentage, or the level reserved for a
    /// missing battery.
    pub fn battery_level(&mut self) -> (r: Result<u8, I2C::Error>)
        ensures
            final(self).address() == old(self).address(),
            exists|outcome: Result<[u8; 1], I2C::Error>|
                r == level_of(#[trigger] byte_of(outcome)) && old(self).read_once(
                    final(self),
                    Register::BatteryLevel.spec_address(),
                    outcome,
                ),
            r matches Ok(level) ==> level <= 0x7f,
    {
        let byte = self.write_read_byte(Register::BatteryLevel.address());
        to_level(byte)
    }

    /// Whether a battery is connected: it is unless the charge level is the
    /// one reserved for a missing battery.
    pub fn battery_present(&mut self) -> (r: Result<bool, I2C::Error>)
        ensures
            final(self).address() == old(self).address(),
            exists|outcome: Result<[u8; 1], I2C::Error>|
                r == presence_of(level_of(#[trigger] byte_of(outcome))) && old(self).read_once(
                    final(self),
                    Register::BatteryLevel.spec_address(),
                    outcome,
                ),
    {
        let level = self.battery_level();
        to_presence(level)
    }
}

/// A failure of the bus surfaces unchanged, after one exchange and no more.
///
/// Where a two-byte read made one exchange and that exchange failed with the
/// error `e`, the record has grown by that one entry, and whatever the read
/// was for, the report is `e` itself.
pub proof fn lemma_failed_read_surfaces<I2C: Transport>(
    before: Axp209<I2C>,
    after: Axp209<I2C>,
    register: u8,
    outcome: Result<[u8; 2], I2C::Error>,
    e: I2C::Error,
    channel: Channel,
    layout: Layout,
)
    requires
        before.read_once(&after, register, outcome),
        after.exchanges().last().answer == Err::<Seq<u8>, I2C::Error>(e),
    ensures
        after.exchanges().len() == before.exchanges().len() + 1,
        after.exchanges().drop_last() == before.exchanges(),
        outcome == Err::<[u8; 2], I2C::Error>(e),
        sample_of(layout, outcome) == Err::<u16, I2C::Error>(e),
        reading_of(channel, outcome) == Err::<i16, I2C::Error>(e),
        magnitude_of(channel, outcome) == Err::<u16, I2C::Error>(e),
        status_of(outcome) == Err::<AdcStatus, I2C::Error>(e),
{
    lemma_answer_tells_outcome(outcome, Err::<[u8; 2], I2C::Error>(e));
    assert(after.exchanges().drop_last() =~= before.exchanges());
}

/// The same for the one-byte reads: a failed exchange is the only one made,
/// and the byte, the level and the presence all report its error.
pub proof fn lemma_failed_byte_read_surfaces<I2C: Transport>(
    before: Axp209<I2C>,
    after: Axp209<I2C>,
    register: u8,
    outcome: Result<[u8; 1], I2C::Error>,
    e: I2C::Error,
)
    requires
        before.read_once(&after, register, outcome),
        after.exchanges().last().answer == Err::<Seq<u8>, I2C::Error>(e),
    ensures
        after.exchanges().len() == before.exchanges().len() + 1,
        after.exchanges().drop_last() == before.exchanges(),
        outcome == Err::<[u8; 1], I2C::Error>(e),
        byte_of(outcome) == Err::<u8, I2C::Error>(e),
        level_of(byte_of(outcome)) == Err::<u8, I2C::Error>(e),
        presence_of(level_of(byte_of(outcome))) == Err::<bool, I2C::Error>(e),
{
    lemma_answer_tells_outcome(outcome, Err::<[u8; 1], I2C::Error>(e));
    assert(after.exchanges().drop_last() =~= before.exchanges());
}

/// An exchange says what was asked: the read of a register is made at the
/// handle's address, writes the register's one byte and asks for `N` bytes,
/// and its outcome is the one and only outcome that the record holds for it.
pub proof fn lemma_read_once_says_what_was_asked<I2C: Transport, const N: usize>(
    before: Axp209<I2C>,
    after: Axp209<I2C>,
    register: u8,
    outcome: Result<[u8; N], I2C::Error>,
    other: Result<[u8; N], I2C::Error>,
)
    requires
        before.read_once(&after, register, outcome),
    ensures
        after.exchanges().len() == before.exchanges().len() + 1,
        after.exchanges().last().address == before.address(),
        after.exchanges().last().outgoing == seq![register],
        after.exchanges().last().count == N,
        before.read_once(&after, register, other) ==> other == outcome,
{
    if before.read_once(&after, register, other) {
        assert(register_read(before.address(), register, other) == after.exchanges().last());
        lemma_answer_tells_outcome(outcome, other);
    }
}

} // verus!
