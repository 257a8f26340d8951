use mp2667::registers::{
    ChargeCurrentControl, ChargeStatus, ChargeTerminationAndTimerControl, ChargeVoltageControl,
    DischargeAndTerminationCurrent, InputCurrentLimit, InputSourceControl,
    MiscellaneousOperationControl, PowerOnConfiguration, SystemStatus,
};
use mp2667::{decode_reply, read_request, write_request, Transport, DEVICE_ADDRESS, MP2667};

#[derive(Debug, Clone, Copy, PartialEq, Eq)]
struct BusError(u32);

#[derive(Debug, Default)]
struct MockBus {
    writes: Vec<(u8, Vec<u8>)>,
    write_reads: Vec<(u8, Vec<u8>)>,
    reply: Option<u8>,
    failure: Option<BusError>,
}

impl MockBus {
    fn replying(byte: u8) -> MockBus {
        MockBus { reply: Some(byte), ..MockBus::default() }
    }

    fn failing(e: BusError) -> MockBus {
        MockBus { failure: Some(e), ..MockBus::default() }
    }
}

impl Transport for MockBus {
    type Error = BusError;

    fn write(&mut self, address: u8, bytes: &[u8]) -> Result<(), BusError> {
        self.writes.push((address, bytes.to_vec()));
        match self.failure {
            Some(e) => Err(e),
            None => Ok(()),
        }
    }

    fn write_read(&mut self, address: u8, bytes: &[u8], buffer: &mut [u8; 1]) -> Result<(), BusError> {
        self.write_reads.push((address, bytes.to_vec()));
        if let Some(e) = self.failure {
            return Err(e);
        }
        buffer[0] = self.reply.unwrap_or(0);
        Ok(())
    }
}

#[test]
fn set_then_get_input_source() {
    let ctrl = InputSourceControl {
        input_current_limit: InputCurrentLimit::I470mA,
        input_minimum_voltage: 5,
        ldo_fet_disabled: false,
    };
    let mut charger = MP2667::new(MockBus::default());
    assert_eq!(charger.set_input_source(ctrl), Ok(()));
    let bus = charger.release();
    assert_eq!(bus.writes, vec![(0x09, vec![0x00, 0b0010_1011])]);
    assert!(bus.write_reads.is_empty());

    let mut charger = MP2667::new(MockBus::replying(0b0010_1011));
    assert_eq!(charger.get_input_source(), Ok(ctrl));
    let bus = charger.release();
    assert_eq!(bus.write_reads, vec![(0x09, vec![0x00])]);
    assert!(bus.writes.is_empty());
}

#[test]
fn get_status_decodes_reply() {
    let mut charger = MP2667::new(MockBus::replying(0b0000_0110));
    let status = charger.get_status().unwrap();
    assert_eq!(
        status,
        SystemStatus {
            thermal_regulation: false,
            power_good: true,
            power_path_enabled: true,
            charge_status: ChargeStatus::NotCharging,
            revision: 0,
        }
    );
    assert_eq!(charger.release().write_reads, vec![(0x09, vec![0x07])]);
}

#[test]
fn get_faults_reads_address_eight() {
    let mut charger = MP2667::new(MockBus::replying(0b0000_1000));
    let faults = charger.get_faults().unwrap();
    assert!(faults.battery_fault);
    assert!(!faults.input_fault);
    assert_eq!(charger.release().write_reads, vec![(0x09, vec![0x08])]);
}

#[test]
fn read_failure_is_passed_through() {
    let mut charger = MP2667::new(MockBus::failing(BusError(7)));
    assert_eq!(charger.get_input_source(), Err(BusError(7)));
    assert_eq!(charger.get_status(), Err(BusError(7)));
    assert_eq!(charger.get_faults(), Err(BusError(7)));
    let bus = charger.release();
    assert_eq!(bus.write_reads.len(), 3);
    assert!(bus.writes.is_empty());
}

#[test]
fn write_failure_is_passed_through() {
    let mut charger = MP2667::new(MockBus::failing(BusError(42)));
    assert_eq!(charger.set_power_on_config(PowerOnConfiguration::default()), Err(BusError(42)));
    assert_eq!(charger.release().writes, vec![(0x09, vec![0x01, 0b0000_0100])]);
}

#[test]
fn each_getter_reads_its_address() {
    let mut charger = MP2667::new(MockBus::replying(0));
    charger.get_input_source().unwrap();
    charger.get_power_on_config().unwrap();
    charger.get_charge_current_control().unwrap();
    charger.get_discharge_and_termination_current().unwrap();
    charger.get_charge_voltage_control().unwrap();
    charger.get_charge_termination_and_timer_control().unwrap();
    charger.get_miscellaneous_operation_control().unwrap();
    charger.get_status().unwrap();
    charger.get_faults().unwrap();
    let bus = charger.release();
    let addresses: Vec<Vec<u8>> = bus.write_reads.iter().map(|(_, b)| b.clone()).collect();
    assert_eq!(addresses, (0..9u8).map(|a| vec![a]).collect::<Vec<_>>());
    assert!(bus.write_reads.iter().all(|(d, _)| *d == DEVICE_ADDRESS));
}

#[test]
fn setters_write_only_read_write_addresses() {
    let mut charger = MP2667::new(MockBus::default());
    charger.set_input_source(InputSourceControl::default()).unwrap();
    charger.set_power_on_config(PowerOnConfiguration::default()).unwrap();
    charger.set_charge_current_control(ChargeCurrentControl::default()).unwrap();
    charger.set_discharge_and_termination_current(DischargeAndTerminationCurrent::default()).unwrap();
    charger.set_charge_voltage_control(ChargeVoltageControl::default()).unwrap();
    charger
        .set_charge_termination_and_timer_control(ChargeTerminationAndTimerControl::default())
        .unwrap();
    charger
        .set_miscellaneous_operation_control(MiscellaneousOperationControl::default())
        .unwrap();
    let bus = charger.release();
    let expected: Vec<(u8, Vec<u8>)> = vec![
        (0x09, vec![0x00, 0b0100_1011]),
        (0x09, vec![0x01, 0b0000_0100]),
        (0x09, vec![0x02, 0b0000_0111]),
        (0x09, vec![0x03, 0b0100_1001]),
        (0x09, vec![0x04, 0b1010_0011]),
        (0x09, vec![0x05, 0b0100_1010]),
        (0x09, vec![0x06, 0b0000_1011]),
    ];
    assert_eq!(bus.writes, expected);
    assert!(bus.writes.iter().all(|(_, b)| b[0] != 0x07 && b[0] != 0x08));
}

#[test]
fn requests_and_replies() {
    assert_eq!(read_request::<SystemStatus>(), [0x07]);
    assert_eq!(read_request::<InputSourceControl>(), [0x00]);
    let cfg = ChargeCurrentControl { charge_current: 0b1_0101 };
    assert_eq!(write_request(&cfg), [0x02, 0b0001_0101]);
    let ok: Result<ChargeCurrentControl, BusError> = decode_reply(Ok(()), 0b1111_0011);
    assert_eq!(ok, Ok(ChargeCurrentControl { charge_current: 0b1_0011 }));
    let err: Result<ChargeCurrentControl, BusError> = decode_reply(Err(BusError(3)), 0xff);
    assert_eq!(err, Err(BusError(3)));
}

#[test]
fn release_returns_the_bus() {
    let charger = MP2667::new(MockBus::replying(0x5a));
    let bus = charger.release();
    assert_eq!(bus.reply, Some(0x5a));
    assert!(bus.writes.is_empty() && bus.write_reads.is_empty());
}
