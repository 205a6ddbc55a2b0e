use axp209::status::AdcInput;
use axp209::{Axp209, Transport, BATTERY_LEVEL_MISSING};
use std::cell::RefCell;
use std::rc::Rc;

#[derive(Debug, PartialEq, Eq, Clone, Copy)]
enum Fault {
    Nack,
    ArbitrationLoss,
    Timeout(u32),
}

/// What one transaction asked of the bus.
#[derive(Debug, PartialEq, Eq, Clone)]
struct Asked {
    address: u8,
    outgoing: Vec<u8>,
    incoming: usize,
}

/// A bus that answers every transaction with the same outcome and keeps a
/// record of what it was asked.
struct Scripted {
    node: String,
    outcome: Result<Vec<u8>, Fault>,
    asked: Rc<RefCell<Vec<Asked>>>,
}

impl Scripted {
    fn open(node: &str) -> Result<Scripted, Fault> {
        Ok(Scripted {
            node: node.to_string(),
            outcome: Ok(vec![0x32, 0x00]),
            asked: Rc::new(RefCell::new(Vec::new())),
        })
    }

    fn replying(bytes: &[u8]) -> (Scripted, Rc<RefCell<Vec<Asked>>>) {
        let asked = Rc::new(RefCell::new(Vec::new()));
        let bus = Scripted {
            node: String::new(),
            outcome: Ok(bytes.to_vec()),
            asked: asked.clone(),
        };
        (bus, asked)
    }

    fn failing(fault: Fault) -> (Scripted, Rc<RefCell<Vec<Asked>>>) {
        let asked = Rc::new(RefCell::new(Vec::new()));
        let bus = Scripted { node: String::new(), outcome: Err(fault), asked: asked.clone() };
        (bus, asked)
    }
}

impl Transport for Scripted {
    type Error = Fault;

    fn transaction<const N: usize>(
        &mut self,
        address: u8,
        outgoing: &[u8],
    ) -> Result<[u8; N], Fault> {
        self.asked.borrow_mut().push(Asked {
            address,
            outgoing: outgoing.to_vec(),
            incoming: N,
        });
        match &self.outcome {
            Ok(bytes) => {
                let mut reply = [0u8; N];
                reply.copy_from_slice(&bytes[..N]);
                Ok(reply)
            }
            Err(fault) => Err(*fault),
        }
    }
}

fn one(address: u8, register: u8, incoming: usize) -> Vec<Asked> {
    vec![Asked { address, outgoing: vec![register], incoming }]
}

#[test]
fn battery_level() {
    let i2c = Scripted::open("/dev/i2c-0").unwrap();
    assert_eq!(i2c.node, "/dev/i2c-0");
    let address = 0x34;

    let mut pmic = Axp209::new(i2c, address);
    let level = pmic.battery_level().unwrap();

    // Values for 'level' can be either the percentage, or
    // 0x7F if the battery is missing
    assert!(level <= 100 || level == 0x7F);
    assert_eq!(level, 50);
}

#[test]
fn battery_level_masks_the_control_bit() {
    let (bus, asked) = Scripted::replying(&[0xFF]);
    let mut pmic = Axp209::new(bus, 0x34);
    assert_eq!(pmic.battery_level(), Ok(0x7F));
    assert_eq!(pmic.battery_level(), Ok(BATTERY_LEVEL_MISSING));
    assert_eq!(asked.borrow().len(), 2);

    let (bus, asked) = Scripted::replying(&[0x32]);
    let mut pmic = Axp209::new(bus, 0x34);
    assert_eq!(pmic.battery_level(), Ok(50));
    assert_eq!(*asked.borrow(), one(0x34, 0xb9, 1));

    let (bus, _) = Scripted::replying(&[0xB2]);
    let mut pmic = Axp209::new(bus, 0x34);
    assert_eq!(pmic.battery_level(), Ok(50));
}

#[test]
fn battery_present_unless_level_is_reserved() {
    let (bus, asked) = Scripted::replying(&[0x32]);
    let mut pmic = Axp209::new(bus, 0x34);
    assert_eq!(pmic.battery_present(), Ok(true));
    assert_eq!(*asked.borrow(), one(0x34, 0xb9, 1));

    let (bus, _) = Scripted::replying(&[0x7F]);
    let mut pmic = Axp209::new(bus, 0x34);
    assert_eq!(pmic.battery_present(), Ok(false));

    let (bus, _) = Scripted::replying(&[0xFF]);
    let mut pmic = Axp209::new(bus, 0x34);
    assert_eq!(pmic.battery_present(), Ok(false));

    for byte in 0..=255u8 {
        let (bus, _) = Scripted::replying(&[byte]);
        let mut pmic = Axp209::new(bus, 0x34);
        assert_eq!(pmic.battery_present(), Ok(byte & 0x7F != 0x7F));
    }
}

#[test]
fn read_bytes_writes_the_register_and_reads_the_count() {
    let (bus, asked) = Scripted::replying(&[0x11, 0x22, 0x33]);
    let mut pmic = Axp209::new(bus, 0x34);
    assert_eq!(pmic.read_bytes::<3>(0x70), Ok([0x11, 0x22, 0x33]));
    assert_eq!(pmic.read_bytes::<1>(0x01), Ok([0x11]));
    assert_eq!(pmic.read_bytes::<2>(0x56), Ok([0x11, 0x22]));
    assert_eq!(
        *asked.borrow(),
        vec![
            Asked { address: 0x34, outgoing: vec![0x70], incoming: 3 },
            Asked { address: 0x34, outgoing: vec![0x01], incoming: 1 },
            Asked { address: 0x34, outgoing: vec![0x56], incoming: 2 },
        ]
    );
}

#[test]
fn device_address_is_the_one_given() {
    let (bus, asked) = Scripted::replying(&[0x00, 0x00]);
    let mut pmic = Axp209::new(bus, 0x35);
    pmic.battery_voltage().unwrap();
    pmic.battery_level().unwrap();
    for call in asked.borrow().iter() {
        assert_eq!(call.address, 0x35);
    }
    assert_eq!(asked.borrow().len(), 2);
}

#[test]
fn write_read_byte_reads_one_byte() {
    let (bus, asked) = Scripted::replying(&[0xA5, 0x5A]);
    let mut pmic = Axp209::new(bus, 0x34);
    assert_eq!(pmic.write_read_byte(0x00), Ok(0xA5));
    assert_eq!(*asked.borrow(), one(0x34, 0x00, 1));
}

#[test]
fn get_adc_10bits_decodes_four_low_bits() {
    let (bus, asked) = Scripted::replying(&[0x3E, 0x08]);
    let mut pmic = Axp209::new(bus, 0x34);
    assert_eq!(pmic.get_adc_10bits(0x78), Ok(1000));
    assert_eq!(*asked.borrow(), one(0x34, 0x78, 2));

    let (bus, _) = Scripted::replying(&[0xFF, 0xFF]);
    let mut pmic = Axp209::new(bus, 0x34);
    assert_eq!(pmic.get_adc_10bits(0x78), Ok(4095));

    let (bus, _) = Scripted::replying(&[0x00, 0xF0]);
    let mut pmic = Axp209::new(bus, 0x34);
    assert_eq!(pmic.get_adc_10bits(0x78), Ok(0));
}

#[test]
fn battery_voltage_reading() {
    let (bus, asked) = Scripted::replying(&[0x3E, 0x08]);
    let mut pmic = Axp209::new(bus, 0x34);
    assert_eq!(pmic.battery_voltage(), Ok(1100));
    assert_eq!(*asked.borrow(), one(0x34, 0x78, 2));
}

#[test]
fn battery_charging_current_reading() {
    let (bus, asked) = Scripted::replying(&[0x3E, 0x08]);
    let mut pmic = Axp209::new(bus, 0x34);
    assert_eq!(pmic.battery_charging_current(), Ok(500));
    assert_eq!(*asked.borrow(), one(0x34, 0x7a, 2));
}

#[test]
fn battery_discharging_current_reading() {
    // 0x1F << 5 | 0x08 = 1000
    let (bus, asked) = Scripted::replying(&[0x1F, 0x08]);
    let mut pmic = Axp209::new(bus, 0x34);
    assert_eq!(pmic.battery_discharging_current(), Ok(500));
    assert_eq!(*asked.borrow(), one(0x34, 0x7c, 2));

    // The fifth bit of the second byte counts on this channel only.
    let (bus, _) = Scripted::replying(&[0x00, 0x10]);
    let mut pmic = Axp209::new(bus, 0x34);
    assert_eq!(pmic.battery_discharging_current(), Ok(8));
    assert_eq!(pmic.battery_charging_current(), Ok(0));

    let (bus, _) = Scripted::replying(&[0xFF, 0x1F]);
    let mut pmic = Axp209::new(bus, 0x34);
    assert_eq!(pmic.battery_discharging_current(), Ok(4095));
}

#[test]
fn acin_readings() {
    let (bus, asked) = Scripted::replying(&[0x3E, 0x08]);
    let mut pmic = Axp209::new(bus, 0x34);
    assert_eq!(pmic.acin_voltage(), Ok(1142));
    assert_eq!(pmic.acin_current(), Ok(100));
    assert_eq!(
        *asked.borrow(),
        vec![
            Asked { address: 0x34, outgoing: vec![0x56], incoming: 2 },
            Asked { address: 0x34, outgoing: vec![0x58], incoming: 2 },
        ]
    );
}

#[test]
fn vbus_readings() {
    let (bus, asked) = Scripted::replying(&[0x3E, 0x08]);
    let mut pmic = Axp209::new(bus, 0x34);
    assert_eq!(pmic.vbus_voltage(), Ok(1142));
    assert_eq!(pmic.vbus_current(), Ok(83));
    assert_eq!(
        *asked.borrow(),
        vec![
            Asked { address: 0x34, outgoing: vec![0x5a], incoming: 2 },
            Asked { address: 0x34, outgoing: vec![0x5c], incoming: 2 },
        ]
    );
}

#[test]
fn temperature_reading() {
    // 0x5A << 4 | 0xA = 1450
    let (bus, asked) = Scripted::replying(&[0x5A, 0x0A]);
    let mut pmic = Axp209::new(bus, 0x34);
    assert_eq!(pmic.temperature(), Ok(0));
    assert_eq!(*asked.borrow(), one(0x34, 0x5e, 2));

    let (bus, _) = Scripted::replying(&[0x00, 0x00]);
    let mut pmic = Axp209::new(bus, 0x34);
    assert_eq!(pmic.temperature(), Ok(-145));

    let (bus, _) = Scripted::replying(&[0xFF, 0xFF]);
    let mut pmic = Axp209::new(bus, 0x34);
    assert_eq!(pmic.temperature(), Ok(264));
}

#[test]
fn gpio_readings() {
    let (bus, asked) = Scripted::replying(&[0x3E, 0x08]);
    let mut pmic = Axp209::new(bus, 0x34);
    assert_eq!(pmic.gpio0_voltage(), Ok(500));
    assert_eq!(pmic.gpio1_voltage(), Ok(500));
    assert_eq!(
        *asked.borrow(),
        vec![
            Asked { address: 0x34, outgoing: vec![0x64], incoming: 2 },
            Asked { address: 0x34, outgoing: vec![0x66], incoming: 2 },
        ]
    );
}

#[test]
fn adc_control_reading() {
    let (bus, asked) = Scripted::replying(&[0x80, 0x04]);
    let mut pmic = Axp209::new(bus, 0x34);
    let status = pmic.adc_control().unwrap();
    assert_eq!(*asked.borrow(), one(0x34, 0x82, 2));
    assert!(status.is_enabled(AdcInput::BatteryVoltage));
    assert!(status.is_enabled(AdcInput::Gpio1));
    assert!(!status.is_enabled(AdcInput::BatteryCurrent));
    assert!(!status.is_enabled(AdcInput::VbusCurrent));
    assert!(!status.is_enabled(AdcInput::DieTemperature));
    assert!(!status.is_enabled(AdcInput::Gpio0));
}

#[test]
fn every_reading_is_fresh() {
    let (bus, asked) = Scripted::replying(&[0x3E, 0x08]);
    let mut pmic = Axp209::new(bus, 0x34);
    assert_eq!(pmic.battery_voltage(), Ok(1100));
    assert_eq!(pmic.battery_voltage(), Ok(1100));
    assert_eq!(pmic.battery_voltage(), Ok(1100));
    assert_eq!(asked.borrow().len(), 3);
}

fn assert_one_failed_call(asked: &Rc<RefCell<Vec<Asked>>>, register: u8, incoming: usize) {
    assert_eq!(*asked.borrow(), one(0x34, register, incoming));
}

#[test]
fn bus_failure_surfaces_unchanged_after_one_transaction() {
    for fault in [Fault::Nack, Fault::ArbitrationLoss, Fault::Timeout(250)] {
        let (bus, asked) = Scripted::failing(fault);
        assert_eq!(Axp209::new(bus, 0x34).read_bytes::<2>(0x12), Err(fault));
        assert_one_failed_call(&asked, 0x12, 2);

        let (bus, asked) = Scripted::failing(fault);
        assert_eq!(Axp209::new(bus, 0x34).write_read_byte(0x01), Err(fault));
        assert_one_failed_call(&asked, 0x01, 1);

        let (bus, asked) = Scripted::failing(fault);
        assert_eq!(Axp209::new(bus, 0x34).adc_control().err(), Some(fault));
        assert_one_failed_call(&asked, 0x82, 2);

        let (bus, asked) = Scripted::failing(fault);
        assert_eq!(Axp209::new(bus, 0x34).get_adc_10bits(0x78), Err(fault));
        assert_one_failed_call(&asked, 0x78, 2);

        let (bus, asked) = Scripted::failing(fault);
        assert_eq!(Axp209::new(bus, 0x34).battery_discharging_current(), Err(fault));
        assert_one_failed_call(&asked, 0x7c, 2);

        let (bus, asked) = Scripted::failing(fault);
        assert_eq!(Axp209::new(bus, 0x34).battery_voltage(), Err(fault));
        assert_one_failed_call(&asked, 0x78, 2);

        let (bus, asked) = Scripted::failing(fault);
        assert_eq!(Axp209::new(bus, 0x34).battery_charging_current(), Err(fault));
        assert_one_failed_call(&asked, 0x7a, 2);

        let (bus, asked) = Scripted::failing(fault);
        assert_eq!(Axp209::new(bus, 0x34).acin_voltage(), Err(fault));
        assert_one_failed_call(&asked, 0x56, 2);

        let (bus, asked) = Scripted::failing(fault);
        assert_eq!(Axp209::new(bus, 0x34).acin_current(), Err(fault));
        assert_one_failed_call(&asked, 0x58, 2);

        let (bus, asked) = Scripted::failing(fault);
        assert_eq!(Axp209::new(bus, 0x34).vbus_voltage(), Err(fault));
        assert_one_failed_call(&asked, 0x5a, 2);

        let (bus, asked) = Scripted::failing(fault);
        assert_eq!(Axp209::new(bus, 0x34).vbus_current(), Err(fault));
        assert_one_failed_call(&asked, 0x5c, 2);

        let (bus, asked) = Scripted::failing(fault);
        assert_eq!(Axp209::new(bus, 0x34).temperature(), Err(fault));
        assert_one_failed_call(&asked, 0x5e, 2);

        let (bus, asked) = Scripted::failing(fault);
        assert_eq!(Axp209::new(bus, 0x34).gpio0_voltage(), Err(fault));
        assert_one_failed_call(&asked, 0x64, 2);

        let (bus, asked) = Scripted::failing(fault);
        assert_eq!(Axp209::new(bus, 0x34).gpio1_voltage(), Err(fault));
        assert_one_failed_call(&asked, 0x66, 2);

        let (bus, asked) = Scripted::failing(fault);
        assert_eq!(Axp209::new(bus, 0x34).battery_level(), Err(fault));
        assert_one_failed_call(&asked, 0xb9, 1);

        let (bus, asked) = Scripted::failing(fault);
        assert_eq!(Axp209::new(bus, 0x34).battery_present(), Err(fault));
        assert_one_failed_call(&asked, 0xb9, 1);
    }
}

/// A bus that answers its transactions with a list of outcomes, in order.
struct Sequence {
    outcomes: Vec<Result<Vec<u8>, Fault>>,
    asked: Rc<RefCell<Vec<Asked>>>,
}

impl Transport for Sequence {
    type Error = Fault;

    fn transaction<const N: usize>(
        &mut self,
        address: u8,
        outgoing: &[u8],
    ) -> Result<[u8; N], Fault> {
        self.asked.borrow_mut().push(Asked {
            address,
            outgoing: outgoing.to_vec(),
            incoming: N,
        });
        match self.outcomes.remove(0) {
            Ok(bytes) => {
                let mut reply = [0u8; N];
                reply.copy_from_slice(&bytes[..N]);
                Ok(reply)
            }
            Err(fault) => Err(fault),
        }
    }
}

#[test]
fn failure_leaves_no_state_behind() {
    let asked = Rc::new(RefCell::new(Vec::new()));
    let bus = Sequence {
        outcomes: vec![Err(Fault::Nack), Ok(vec![0x3E, 0x08]), Err(Fault::Timeout(3)), Ok(vec![0x32])],
        asked: asked.clone(),
    };
    let mut pmic = Axp209::new(bus, 0x34);
    assert_eq!(pmic.get_adc_10bits(0x56), Err(Fault::Nack));
    assert_eq!(pmic.get_adc_10bits(0x78), Ok(1000));
    assert_eq!(pmic.battery_level(), Err(Fault::Timeout(3)));
    assert_eq!(pmic.battery_level(), Ok(50));
    assert_eq!(
        *asked.borrow(),
        vec![
            Asked { address: 0x34, outgoing: vec![0x56], incoming: 2 },
            Asked { address: 0x34, outgoing: vec![0x78], incoming: 2 },
            Asked { address: 0x34, outgoing: vec![0xb9], incoming: 1 },
            Asked { address: 0x34, outgoing: vec![0xb9], incoming: 1 },
        ]
    );
}

#[test]
fn making_a_handle_asks_nothing_of_the_bus() {
    let (bus, asked) = Scripted::replying(&[0x00, 0x00]);
    let _pmic = Axp209::new(bus, 0x34);
    assert!(asked.borrow().is_empty());
}
