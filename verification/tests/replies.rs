use axp209::channel::Channel;
use axp209::reply::{to_byte, to_level, to_magnitude, to_presence, to_reading, to_sample, to_status};
use axp209::sample::Layout;
use axp209::status::AdcInput;

#[derive(Debug, PartialEq, Eq, Clone, Copy)]
enum Fault {
    Nack,
    ArbitrationLoss,
    Timeout(u32),
}

const FAULTS: [Fault; 3] = [Fault::Nack, Fault::ArbitrationLoss, Fault::Timeout(17)];

const UNSIGNED_CHANNELS: [Channel; 9] = [
    Channel::AcinVoltage,
    Channel::AcinCurrent,
    Channel::VbusVoltage,
    Channel::VbusCurrent,
    Channel::Gpio0Voltage,
    Channel::Gpio1Voltage,
    Channel::BatteryVoltage,
    Channel::BatteryChargeCurrent,
    Channel::BatteryDischargeCurrent,
];

fn ok2(hi: u8, lo: u8) -> Result<[u8; 2], Fault> {
    Ok([hi, lo])
}

#[test]
fn byte_of_reply() {
    assert_eq!(to_byte::<Fault>(Ok([0xA5])), Ok(0xA5));
    assert_eq!(to_byte::<Fault>(Ok([0x00])), Ok(0x00));
}

#[test]
fn sample_of_reply() {
    assert_eq!(to_sample(Layout::LowNibble, ok2(0x00, 0x00)), Ok(0));
    assert_eq!(to_sample(Layout::LowNibble, ok2(0xFF, 0x0F)), Ok(4095));
    assert_eq!(to_sample(Layout::LowQuintet, ok2(0xFF, 0x1F)), Ok(8191));
    assert_eq!(to_sample(Layout::LowNibble, ok2(0x3E, 0x08)), Ok(1000));
}

#[test]
fn reading_of_reply() {
    // 0x3E << 4 | 0x8 = 1000
    assert_eq!(to_reading(Channel::BatteryVoltage, ok2(0x3E, 0x08)), Ok(1100));
    assert_eq!(to_reading(Channel::AcinCurrent, ok2(0x3E, 0x08)), Ok(100));
    assert_eq!(to_reading(Channel::AcinVoltage, ok2(0x3E, 0x08)), Ok(1142));
    assert_eq!(to_reading(Channel::VbusVoltage, ok2(0x3E, 0x08)), Ok(1142));
    assert_eq!(to_reading(Channel::VbusCurrent, ok2(0x3E, 0x08)), Ok(83));
    assert_eq!(to_reading(Channel::BatteryChargeCurrent, ok2(0x3E, 0x08)), Ok(500));
    assert_eq!(to_reading(Channel::Gpio0Voltage, ok2(0x3E, 0x08)), Ok(500));
    assert_eq!(to_reading(Channel::Gpio1Voltage, ok2(0x3E, 0x08)), Ok(500));
    // 0x5A << 4 | 0xA = 1450
    assert_eq!(to_reading(Channel::Temperature, ok2(0x5A, 0x0A)), Ok(0));
    assert_eq!(to_reading(Channel::Temperature, ok2(0x00, 0x00)), Ok(-145));
    // 0x1F << 5 | 0x08 = 1000 under the quintet layout
    assert_eq!(to_reading(Channel::BatteryDischargeCurrent, ok2(0x1F, 0x08)), Ok(500));
}

#[test]
fn discharge_current_uses_five_low_bits() {
    // Under the nibble layout these bytes would hold 0x3E0 = 992.
    assert_eq!(to_reading(Channel::BatteryDischargeCurrent, ok2(0x3E, 0x10)), Ok(1000));
    assert_eq!(to_magnitude(Channel::BatteryDischargeCurrent, ok2(0xFF, 0x1F)), Ok(4095));
    assert_eq!(to_magnitude(Channel::BatteryChargeCurrent, ok2(0x3E, 0x10)), Ok(496));
}

#[test]
fn magnitude_agrees_with_reading() {
    for channel in UNSIGNED_CHANNELS {
        for reply in [[0u8, 0u8], [0x3E, 0x08], [0xFF, 0xFF], [0x12, 0x34]] {
            let signed = to_reading::<Fault>(channel, Ok(reply)).unwrap();
            let unsigned = to_magnitude::<Fault>(channel, Ok(reply)).unwrap();
            assert!(signed >= 0);
            assert_eq!(signed as u16, unsigned);
        }
    }
    assert_eq!(to_magnitude(Channel::BatteryVoltage, ok2(0x3E, 0x08)), Ok(1100));
    assert_eq!(to_magnitude(Channel::AcinCurrent, ok2(0x3E, 0x08)), Ok(100));
}

#[test]
fn level_of_reply() {
    assert_eq!(to_level::<Fault>(Ok(0xFF)), Ok(0x7F));
    assert_eq!(to_level::<Fault>(Ok(0x32)), Ok(50));
    assert_eq!(to_level::<Fault>(Ok(0xB2)), Ok(50));
}

#[test]
fn presence_of_level() {
    assert_eq!(to_presence::<Fault>(Ok(50)), Ok(true));
    assert_eq!(to_presence::<Fault>(Ok(0)), Ok(true));
    assert_eq!(to_presence::<Fault>(Ok(100)), Ok(true));
    assert_eq!(to_presence::<Fault>(Ok(0x7F)), Ok(false));
    for value in 0..=255u8 {
        assert_eq!(to_presence::<Fault>(Ok(value)), Ok(value != 0x7F));
    }
}

#[test]
fn status_of_reply_is_big_endian() {
    let status = to_status(ok2(0x80, 0x04)).unwrap();
    assert!(status.is_enabled(AdcInput::BatteryVoltage));
    assert!(status.is_enabled(AdcInput::Gpio1));
    assert!(!status.is_enabled(AdcInput::DieTemperature));
    assert!(!status.is_enabled(AdcInput::VbusCurrent));
    assert_eq!(status.bits(), 0x8004);

    let swapped = to_status(ok2(0x04, 0x80)).unwrap();
    assert!(swapped.is_enabled(AdcInput::VbusCurrent));
    assert!(swapped.is_enabled(AdcInput::DieTemperature));
    assert!(!swapped.is_enabled(AdcInput::BatteryVoltage));
    assert_eq!(swapped.bits(), 0x0480);
}

#[test]
fn status_of_reply_first_byte_is_first_register() {
    let status = to_status(ok2(0xFF, 0x00)).unwrap();
    assert_eq!(status.bits(), 0xFF00);
    let status = to_status(ok2(0x00, 0xFF)).unwrap();
    assert_eq!(status.bits(), 0x008C);
}

#[test]
fn failures_pass_through_unchanged() {
    for fault in FAULTS {
        assert_eq!(to_byte(Err(fault)), Err(fault));
        assert_eq!(to_sample(Layout::LowNibble, Err(fault)), Err(fault));
        assert_eq!(to_sample(Layout::LowQuintet, Err(fault)), Err(fault));
        assert_eq!(to_reading(Channel::Temperature, Err(fault)), Err(fault));
        for channel in UNSIGNED_CHANNELS {
            assert_eq!(to_reading(channel, Err(fault)), Err(fault));
            assert_eq!(to_magnitude(channel, Err(fault)), Err(fault));
        }
        assert_eq!(to_level(Err(fault)), Err(fault));
        assert_eq!(to_presence(Err(fault)), Err(fault));
        assert_eq!(to_status(Err(fault)).err(), Some(fault));
    }
}
