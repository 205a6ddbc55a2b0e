//! The register map of the AXP209.
//!
//! Every quantity the controller exposes lives at a fixed one-byte address.
//! The map is a closed table: a register is named here or it is not known to
//! the driver.

use vstd::prelude::*;

verus! {

/// The registers this driver knows by name.
#[derive(Clone, Copy, Debug, PartialEq, Eq, Structural)]
pub enum Register {
    /// Power input status.
    PowerStatus,
    /// Charging and battery status.
    BatteryStatus,
    /// Output rail control.
    OutputControl,
    /// Sampling enables of the converter, two bytes.
    AdcControl,
    /// AC-in voltage sample.
    AcinVoltage,
    /// AC-in current sample.
    AcinCurrent,
    /// USB-in voltage sample.
    VbusVoltage,
    /// USB-in current sample.
    VbusCurrent,
    /// Die temperature sample.
    Temperature,
    /// Battery temperature sample.
    BatteryTemperature,
    /// First auxiliary input voltage sample.
    Gpio0Voltage,
    /// Second auxiliary input voltage sample.
    Gpio1Voltage,
    /// Instantaneous battery power.
    InstantaneousBatteryPower,
    /// Battery voltage sample.
    BatteryVoltage,
    /// Battery charge current sample.
    BatteryChargeCurrent,
    /// Battery discharge current sample.
    BatteryDischargeCurrent,
    /// System power-good voltage sample.
    SystemIpsout,
    /// Coulomb counter, charge.
    CoulombBattery,
    /// Coulomb counter, discharge.
    CoulombBatteryDischarge,
    /// Coulomb counter control.
    CoulombBatteryEncryption,
    /// Battery charge level.
    BatteryLevel,
}

impl Register {
    /// The one-byte bus address of the register.
    pub open spec fn spec_address(self) -> u8 {
        match self {
            Register::PowerStatus => 0x00,
            Register::BatteryStatus => 0x01,
            Register::OutputControl => 0x12,
            Register::AdcControl => 0x82,
            Register::AcinVoltage => 0x56,
            Register::AcinCurrent => 0x58,
            Register::VbusVoltage => 0x5a,
            Register::VbusCurrent => 0x5c,
            Register::Temperature => 0x5e,
            Register::BatteryTemperature => 0x62,
            Register::Gpio0Voltage => 0x64,
            Register::Gpio1Voltage => 0x66,
            Register::InstantaneousBatteryPower => 0x70,
            Register::BatteryVoltage => 0x78,
            Register::BatteryChargeCurrent => 0x7a,
            Register::BatteryDischargeCurrent => 0x7c,
            Register::SystemIpsout => 0x7e,
            Register::CoulombBattery => 0xb0,
            Register::CoulombBatteryDischarge => 0xb4,
            Register::CoulombBatteryEncryption => 0xb8,
            Register::BatteryLevel => 0xb9,
        }
    }

    /// The one-byte bus address of the register.
    #[verifier::when_used_as_spec(spec_address)]
    pub fn address(self) -> (a: u8)
        ensures
            a == self.spec_address(),
    {
        match self {
            Register::PowerStatus => 0x00,
            Register::BatteryStatus => 0x01,
            Register::OutputControl => 0x12,
            Register::AdcControl => 0x82,
            Register::AcinVoltage => 0x56,
            Register::AcinCurrent => 0x58,
            Register::VbusVoltage => 0x5a,
            Register::VbusCurrent => 0x5c,
            Register::Temperature => 0x5e,
            Register::BatteryTemperature => 0x62,
            Register::Gpio0Voltage => 0x64,
            Register::Gpio1Voltage => 0x66,
            Register::InstantaneousBatteryPower => 0x70,
            Register::BatteryVoltage => 0x78,
            Register::BatteryChargeCurrent => 0x7a,
            Register::BatteryDischargeCurrent => 0x7c,
            Register::SystemIpsout => 0x7e,
            Register::CoulombBattery => 0xb0,
            Register::CoulombBatteryDischarge => 0xb4,
            Register::CoulombBatteryEncryption => 0xb8,
            Register::BatteryLevel => 0xb9,
        }
    }
}

/// No two registers share an address: a register is known by its address.
pub proof fn lemma_addresses_distinct(a: Register, b: Register)
    ensures
        a.spec_address() == b.spec_address() <==> a == b,
{
}

} // verus!
