use mp2667::registers::{
    ChargeCurrentControl, ChargeStatus, ChargeTerminationAndTimerControl, ChargeVoltageControl,
    DischargeAndTerminationCurrent, FaultFlags, InputCurrentLimit, InputSourceControl,
    MiscellaneousOperationControl, PowerOnConfiguration, PrechargeThreshold, RechargeThreshold,
    SafetyTimerPeriod, SystemStatus, TerminalCurrent, ThermalThreshold, UVLOThreshold,
    WatchdogTimerLimit, CHARGE_CURRENT_CONTROL_RESET, CHARGE_TERMINATION_AND_TIMER_CONTROL_RESET,
    CHARGE_VOLTAGE_CONTROL_RESET, DISCHARGE_AND_TERMINATION_CURRENT_RESET,
    INPUT_SOURCE_CONTROL_RESET, MISCELLANEOUS_OPERATION_CONTROL_RESET,
    POWER_ON_CONFIGURATION_RESET,
};
use mp2667::ReadOnlyRegister;

fn check_round_trip<R: ReadOnlyRegister + PartialEq + std::fmt::Debug>(defined: u8) {
    for b in 0..=255u8 {
        let reg = R::from_byte(b);
        assert_eq!(reg.to_byte(), b & defined, "byte {:#010b}", b);
        assert_eq!(R::from_byte(reg.to_byte()), reg);
    }
}

#[test]
fn round_trip_every_byte_every_register() {
    check_round_trip::<InputSourceControl>(0xff);
    check_round_trip::<PowerOnConfiguration>(0xcf);
    check_round_trip::<ChargeCurrentControl>(0x1f);
    check_round_trip::<DischargeAndTerminationCurrent>(0x7b);
    check_round_trip::<ChargeVoltageControl>(0xff);
    check_round_trip::<ChargeTerminationAndTimerControl>(0x7f);
    check_round_trip::<MiscellaneousOperationControl>(0x6b);
    check_round_trip::<SystemStatus>(0x7f);
    check_round_trip::<FaultFlags>(0x7c);
}

#[test]
fn reserved_bits_are_dropped_and_sent_as_zero() {
    assert_eq!(PowerOnConfiguration::from_byte(0xff).to_byte(), 0b1100_1111);
    assert_eq!(ChargeCurrentControl::from_byte(0xff).to_byte(), 0b0001_1111);
    assert_eq!(DischargeAndTerminationCurrent::from_byte(0b1000_0100).to_byte(), 0);
    assert_eq!(MiscellaneousOperationControl::from_byte(0b1001_0100).to_byte(), 0);
    assert_eq!(FaultFlags::from_byte(0b1000_0011).to_byte(), 0);
}

#[test]
fn input_source_control_layout() {
    let reg = InputSourceControl {
        input_current_limit: InputCurrentLimit::I993mA,
        input_minimum_voltage: 0b1010,
        ldo_fet_disabled: true,
    };
    assert_eq!(reg.to_byte(), 0b1101_0111);
}

#[test]
fn field_isolation_input_source_control() {
    let base = InputSourceControl {
        input_current_limit: InputCurrentLimit::I345mA,
        input_minimum_voltage: 6,
        ldo_fet_disabled: false,
    };
    let other = InputSourceControl { input_minimum_voltage: 15, ..base };
    assert_eq!(base.to_byte() & !0x78, other.to_byte() & !0x78);
    assert_ne!(base.to_byte(), other.to_byte());
    let flipped = InputSourceControl { ldo_fet_disabled: true, ..base };
    assert_eq!(flipped.to_byte(), base.to_byte() | 0x80);
}

#[test]
fn field_isolation_timer_control() {
    let base = ChargeTerminationAndTimerControl::default();
    let changed = ChargeTerminationAndTimerControl { timer_limit: WatchdogTimerLimit::L160s, ..base };
    assert_eq!(changed.to_byte(), base.to_byte() | 0b0011_0000);
    let period = ChargeTerminationAndTimerControl { timer_period: SafetyTimerPeriod::P12h, ..base };
    assert_eq!(period.to_byte() & !0b0000_0110, base.to_byte() & !0b0000_0110);
    assert_eq!(period.to_byte() & 0b0000_0110, 0b0000_0110);
}

#[test]
fn field_isolation_voltage_control() {
    let base = ChargeVoltageControl::default();
    let changed = ChargeVoltageControl { regulation_voltage: 0, ..base };
    assert_eq!(changed.to_byte(), 0b0000_0011);
    let recharge = ChargeVoltageControl { recharge_threshold: RechargeThreshold::U150mV, ..base };
    assert_eq!(recharge.to_byte(), 0b1010_0010);
}

#[test]
fn enum_codes_cover_every_pattern() {
    let limits: Vec<InputCurrentLimit> = (0..8u8).map(InputCurrentLimit::from_code).collect();
    assert_eq!(limits[0], InputCurrentLimit::I77mA);
    assert_eq!(limits[7], InputCurrentLimit::I993mA);
    for c in 0..8u8 {
        assert_eq!(InputCurrentLimit::from_code(c).code(), c);
        assert_eq!(UVLOThreshold::from_code(c).code(), c);
    }
    for c in 0..4u8 {
        assert_eq!(TerminalCurrent::from_code(c).code(), c);
        assert_eq!(SafetyTimerPeriod::from_code(c).code(), c);
        assert_eq!(WatchdogTimerLimit::from_code(c).code(), c);
        assert_eq!(ThermalThreshold::from_code(c).code(), c);
        assert_eq!(ChargeStatus::from_code(c).code(), c);
    }
    for c in 0..2u8 {
        assert_eq!(RechargeThreshold::from_code(c).code(), c);
        assert_eq!(PrechargeThreshold::from_code(c).code(), c);
    }
    assert_eq!(ChargeStatus::from_code(3), ChargeStatus::ChargeDone);
    assert_eq!(UVLOThreshold::from_code(4), UVLOThreshold::U2800mV);
}

#[test]
fn status_charge_status_from_every_pattern() {
    let expected = [
        ChargeStatus::NotCharging,
        ChargeStatus::PreCharge,
        ChargeStatus::Charge,
        ChargeStatus::ChargeDone,
    ];
    for (i, status) in expected.iter().enumerate() {
        let reg = SystemStatus::from_byte((i as u8) << 3);
        assert_eq!(reg.charge_status, *status);
    }
}

#[test]
fn defaults_decode_to_reset_fields() {
    let isc = InputSourceControl::default();
    assert_eq!(isc.input_current_limit, InputCurrentLimit::I470mA);
    assert_eq!(isc.input_minimum_voltage, 9);
    assert!(!isc.ldo_fet_disabled);
    assert_eq!(isc.to_byte(), INPUT_SOURCE_CONTROL_RESET);
    assert_eq!(isc, InputSourceControl::from_byte(0b0100_1011));

    let poc = PowerOnConfiguration::default();
    assert_eq!(poc.uvlo_threshold, UVLOThreshold::U2800mV);
    assert!(!poc.charge_disabled && !poc.watchdog_timer_reset && !poc.settings_reset);
    assert_eq!(poc.to_byte(), POWER_ON_CONFIGURATION_RESET);

    let ccc = ChargeCurrentControl::default();
    assert_eq!(ccc.charge_current, 7);
    assert_eq!(ccc.to_byte(), CHARGE_CURRENT_CONTROL_RESET);

    let dtc = DischargeAndTerminationCurrent::default();
    assert_eq!(dtc.terminal_current, TerminalCurrent::I52mA);
    assert_eq!(dtc.discharge_current_limit, 9);
    assert_eq!(dtc.to_byte(), DISCHARGE_AND_TERMINATION_CURRENT_RESET);

    let cvc = ChargeVoltageControl::default();
    assert_eq!(cvc.recharge_threshold, RechargeThreshold::U300mV);
    assert_eq!(cvc.precharge_threshold, PrechargeThreshold::U3000mV);
    assert_eq!(cvc.regulation_voltage, 40);
    assert_eq!(cvc.to_byte(), CHARGE_VOLTAGE_CONTROL_RESET);

    let ctt = ChargeTerminationAndTimerControl::default();
    assert!(!ctt.termination_control_enabled);
    assert_eq!(ctt.timer_period, SafetyTimerPeriod::P5h);
    assert!(ctt.timer_enabled);
    assert_eq!(ctt.timer_limit, WatchdogTimerLimit::Disabled);
    assert!(ctt.termination_enabled);
    assert_eq!(ctt.to_byte(), CHARGE_TERMINATION_AND_TIMER_CONTROL_RESET);

    let moc = MiscellaneousOperationControl::default();
    assert_eq!(moc.thermal_regulation_threshold, ThermalThreshold::T120C);
    assert!(moc.ntc_enabled);
    assert!(!moc.battery_fet_disabled && !moc.extended_safety_timer);
    assert_eq!(moc.to_byte(), MISCELLANEOUS_OPERATION_CONTROL_RESET);
}

#[test]
fn reset_constants_match_register_map() {
    assert_eq!(INPUT_SOURCE_CONTROL_RESET, 0b0100_1011);
    assert_eq!(POWER_ON_CONFIGURATION_RESET, 0b0000_0100);
    assert_eq!(CHARGE_CURRENT_CONTROL_RESET, 0b0000_0111);
    assert_eq!(DISCHARGE_AND_TERMINATION_CURRENT_RESET, 0b0100_1001);
    assert_eq!(CHARGE_VOLTAGE_CONTROL_RESET, 0b1010_0011);
    assert_eq!(CHARGE_TERMINATION_AND_TIMER_CONTROL_RESET, 0b0100_1010);
    assert_eq!(MISCELLANEOUS_OPERATION_CONTROL_RESET, 0b0000_1011);
}

#[test]
fn fault_flags_layout() {
    let faults = FaultFlags::from_byte(0b0101_0100);
    assert!(faults.safety_timer_expired);
    assert!(!faults.battery_fault);
    assert!(faults.thermal_shutdown);
    assert!(!faults.input_fault);
    assert!(faults.watchdog_timer_expired);
}

#[test]
fn register_addresses() {
    assert_eq!(InputSourceControl::address(), 0x00);
    assert_eq!(PowerOnConfiguration::address(), 0x01);
    assert_eq!(ChargeCurrentControl::address(), 0x02);
    assert_eq!(DischargeAndTerminationCurrent::address(), 0x03);
    assert_eq!(ChargeVoltageControl::address(), 0x04);
    assert_eq!(ChargeTerminationAndTimerControl::address(), 0x05);
    assert_eq!(MiscellaneousOperationControl::address(), 0x06);
    assert_eq!(SystemStatus::address(), 0x07);
    assert_eq!(FaultFlags::address(), 0x08);
}
