//! The sampled channels and their conversion to physical units.
//!
//! Each channel is one row of a table: the register that holds its sample,
//! the layout that packs it, and the formula that turns the raw sample into a
//! physical value. The formulas use integer arithmetic only; a quotient is
//! rounded down at each division, in the order written.

use vstd::prelude::*;

use crate::registers::Register;
use crate::sample::{sample, Layout};

verus! {

/// A quantity that the converter samples.
#[derive(Clone, Copy, Debug, PartialEq, Eq, Structural)]
pub enum Channel {
    /// AC-in voltage, in millivolts.
    AcinVoltage,
    /// AC-in current, in milliamps.
    AcinCurrent,
    /// USB-in voltage, in millivolts.
    VbusVoltage,
    /// USB-in current, in milliamps.
    VbusCurrent,
    /// Die temperature, in degrees Celsius.
    Temperature,
    /// Voltage at the first auxiliary input, in millivolts.
    Gpio0Voltage,
    /// Voltage at the second auxiliary input, in millivolts.
    Gpio1Voltage,
    /// Battery voltage, in millivolts.
    BatteryVoltage,
    /// Battery charge current, in milliamps.
    BatteryChargeCurrent,
    /// Battery discharge current, in milliamps.
    BatteryDischargeCurrent,
}

impl Channel {
    /// The register that holds the channel's sample.
    pub open spec fn spec_register(self) -> Register {
        match self {
            Channel::AcinVoltage => Register::AcinVoltage,
            Channel::AcinCurrent => Register::AcinCurrent,
            Channel::VbusVoltage => Register::VbusVoltage,
            Channel::VbusCurrent => Register::VbusCurrent,
            Channel::Temperature => Register::Temperature,
            Channel::Gpio0Voltage => Register::Gpio0Voltage,
            Channel::Gpio1Voltage => Register::Gpio1Voltage,
            Channel::BatteryVoltage => Register::BatteryVoltage,
            Channel::BatteryChargeCurrent => Register::BatteryChargeCurrent,
            Channel::BatteryDischargeCurrent => Register::BatteryDischargeCurrent,
        }
    }

    /// The layout that packs the channel's sample.
    pub open spec fn spec_layout(self) -> Layout {
        match self {
            Channel::BatteryDischargeCurrent => Layout::LowQuintet,
            _ => Layout::LowNibble,
        }
    }

    /// The physical value of the raw sample `raw`, in the channel's unit.
    pub open spec fn physical(self, raw: int) -> int {
        match self {
            Channel::BatteryVoltage => raw + raw / 10,
            Channel::AcinVoltage | Channel::VbusVoltage => raw + raw / 7,
            Channel::AcinCurrent => ((raw * 16) / 10) / 16,
            Channel::VbusCurrent => (((raw * 16) / 6) / 16) / 2,
            Channel::Temperature => raw / 10 - 145,
            Channel::BatteryChargeCurrent
            | Channel::BatteryDischargeCurrent
            | Channel::Gpio0Voltage
            | Channel::Gpio1Voltage => raw / 2,
        }
    }

    /// Whether `value` is what the channel reports for some reply of the
    /// controller.
    pub open spec fn is_reading(self, value: int) -> bool {
        exists|hi: u8, lo: u8| value == self.physical(#[trigger] sample(self.spec_layout(), hi, lo))
    }

    /// The register that holds the channel's sample.
    #[verifier::when_used_as_spec(spec_register)]
    pub fn register(self) -> (r: Register)
        ensures
            r == self.spec_register(),
    {
        match self {
            Channel::AcinVoltage => Register::AcinVoltage,
            Channel::AcinCurrent => Register::AcinCurrent,
            Channel::VbusVoltage => Register::VbusVoltage,
            Channel::VbusCurrent => Register::VbusCurrent,
            Channel::Temperature => Register::Temperature,
            Channel::Gpio0Voltage => Register::Gpio0Voltage,
            Channel::Gpio1Voltage => Register::Gpio1Voltage,
            Channel::BatteryVoltage => Register::BatteryVoltage,
            Channel::BatteryChargeCurrent => Register::BatteryChargeCurrent,
            Channel::BatteryDischargeCurrent => Register::BatteryDischargeCurrent,
        }
    }

    /// The layout that packs the channel's sample.
    #[verifier::when_used_as_spec(spec_layout)]
    pub fn layout(self) -> (l: Layout)
        ensures
            l == self.spec_layout(),
    {
        match self {
            Channel::BatteryDischargeCurrent => Layout::LowQuintet,
            _ => Layout::LowNibble,
        }
    }

    /// Converts a raw sample of the channel to its physical value.
    ///
    /// The sample must lie in the range of the channel's layout, as every
    /// decoded sample does.
    pub fn convert(self, raw: u16) -> (value: i16)
        requires
            raw <= self.spec_layout().max(),
        ensures
            value == self.physical(raw as int),
    {
        match self {
            Channel::BatteryVoltage => (raw + raw / 10) as i16,
            Channel::AcinVoltage | Channel::VbusVoltage => (raw + raw / 7) as i16,
            Channel::AcinCurrent => (((raw * 16) / 10) / 16) as i16,
            Channel::VbusCurrent => ((((raw * 16) / 6) / 16) / 2) as i16,
            Channel::Temperature => (raw / 10) as i16 - 145,
            Channel::BatteryChargeCurrent
            | Channel::BatteryDischargeCurrent
            | Channel::Gpio0Voltage
            | Channel::Gpio1Voltage => (raw / 2) as i16,
        }
    }
}

/// Every channel has a register of its own.
pub proof fn lemma_channel_registers_distinct(a: Channel, b: Channel)
    ensures
        a.spec_register() == b.spec_register() <==> a == b,
{
}

/// Within the range of the channel's layout, a physical value is never
/// negative, but for the temperature, which starts at 145 degrees below zero;
/// and none exceeds 4680.
pub proof fn lemma_physical_range(channel: Channel, raw: int)
    requires
        0 <= raw <= channel.spec_layout().max(),
    ensures
        channel != Channel::Temperature ==> 0 <= channel.physical(raw),
        channel == Channel::Temperature ==> -145 <= channel.physical(raw),
        channel.physical(raw) <= 4680,
{
}

/// A larger sample never converts to a smaller physical value.
pub proof fn lemma_physical_monotone(channel: Channel, low: int, high: int)
    requires
        0 <= low <= high,
    ensures
        channel.physical(low) <= channel.physical(high),
{
}

/// Scaling a current sample up by sixteen before the division and down again
/// after it changes nothing: the AC-in current is the tenth part of the
/// sample and the USB-in current its twelfth part, both rounded down.
pub proof fn lemma_current_scaling(raw: int)
    requires
        0 <= raw,
    ensures
        Channel::AcinCurrent.physical(raw) == raw / 10,
        Channel::VbusCurrent.physical(raw) == raw / 12,
{
}

} // verus!
