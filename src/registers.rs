use vstd::prelude::*;

use crate::register::{flag, flag_bit, is_read_only_address, ReadOnlyRegister, ReadWriteRegister};

pub use crate::fields::{
    ChargeStatus, InputCurrentLimit, PrechargeThreshold, RechargeThreshold, SafetyTimerPeriod,
    TerminalCurrent, ThermalThreshold, UVLOThreshold, WatchdogTimerLimit,
};

verus! {

/// Input source control register, read-write, at 0x00.
///
/// Layout, from bit 0:
/// - bits 0-2: `input_current_limit`
/// - bits 3-6: `input_minimum_voltage`
/// - bit 7: `ldo_fet_disabled`
#[derive(Structural, PartialEq, Eq, Debug, Clone, Copy)]
pub struct InputSourceControl {
    pub input_current_limit: InputCurrentLimit,
    /// 4 bits.
    pub input_minimum_voltage: u8,
    pub ldo_fet_disabled: bool,
}

/// Power-on reset value of the input source control register.
pub const INPUT_SOURCE_CONTROL_RESET: u8 = 0b0100_1011;

/// The byte whose fields hold these codes, reserved bits zero.
pub open spec fn pack_input_source_control(
    input_current_limit: u8,
    input_minimum_voltage: u8,
    ldo_fet_disabled: bool,
) -> u8 {
    input_current_limit | (input_minimum_voltage << 3u8) | (flag(ldo_fet_disabled) << 7u8)
}

proof fn lemma_input_source_control_pack(
    input_current_limit: u8,
    input_minimum_voltage: u8,
    ldo_fet_disabled: bool,
    packed: u8,
)
    by (bit_vector)
    requires
        input_current_limit < 8,
        input_minimum_voltage < 16,
        packed == pack_input_source_control(
            input_current_limit,
            input_minimum_voltage,
            ldo_fet_disabled,
        ),
    ensures
        packed & 0x7 == input_current_limit,
        (packed >> 3u8) & 0xf == input_minimum_voltage,
        packed & 0x78 == (input_minimum_voltage << 3u8),
        ((packed >> 7u8) & 0x1 == 1) == ldo_fet_disabled,
        packed & 0x80 == (flag(ldo_fet_disabled) << 7u8),
        packed & !0xffu8 == 0,
{
}

proof fn lemma_input_source_control_unpack(byte: u8)
    by (bit_vector)
    ensures
        pack_input_source_control(
            byte & 0x7,
            (byte >> 3u8) & 0xf,
            (byte >> 7u8) & 0x1 == 1,
        ) == byte & 0xff,
        byte & 0x7 < 8,
        (byte >> 3u8) & 0xf < 16,
{
}

impl InputSourceControl {
    /// Changing one field leaves the bits of every other field as they were.
    pub proof fn lemma_field_isolation(a: Self, b: Self)
        requires
            a.wf(),
            b.wf(),
        ensures
            a.input_current_limit == b.input_current_limit
                ==> a.spec_to_byte() & 0x7 == b.spec_to_byte() & 0x7,
            a.input_minimum_voltage == b.input_minimum_voltage
                ==> a.spec_to_byte() & 0x78 == b.spec_to_byte() & 0x78,
            a.ldo_fet_disabled == b.ldo_fet_disabled
                ==> a.spec_to_byte() & 0x80 == b.spec_to_byte() & 0x80,
    {
        lemma_input_source_control_pack(
            a.input_current_limit.spec_code(),
            a.input_minimum_voltage,
            a.ldo_fet_disabled,
            a.spec_to_byte(),
        );
        lemma_input_source_control_pack(
            b.input_current_limit.spec_code(),
            b.input_minimum_voltage,
            b.ldo_fet_disabled,
            b.spec_to_byte(),
        );
    }
}

impl ReadOnlyRegister for InputSourceControl {
    open spec fn spec_address() -> u8 {
        0x00
    }

    open spec fn wf(&self) -> bool {
        self.input_minimum_voltage < 16
    }

    open spec fn defined_bits() -> u8 {
        0xff
    }

    open spec fn spec_from_byte(byte: u8) -> Self {
        InputSourceControl {
            input_current_limit: InputCurrentLimit::spec_from_code(byte & 0x7),
            input_minimum_voltage: (byte >> 3u8) & 0xf,
            ldo_fet_disabled: (byte >> 7u8) & 0x1 == 1,
        }
    }

    open spec fn spec_to_byte(&self) -> u8 {
        pack_input_source_control(
            self.input_current_limit.spec_code(),
            self.input_minimum_voltage,
            self.ldo_fet_disabled,
        )
    }

    fn address() -> (r: u8) {
        0x00
    }

    fn from_byte(byte: u8) -> (r: Self) {
        proof {
            lemma_input_source_control_unpack(byte);
        }
        InputSourceControl {
            input_current_limit: InputCurrentLimit::from_code(byte & 0x7),
            input_minimum_voltage: (byte >> 3u8) & 0xf,
            ldo_fet_disabled: (byte >> 7u8) & 0x1 == 1,
        }
    }

    fn to_byte(&self) -> (r: u8) {
        proof {
            lemma_input_source_control_pack(
                self.input_current_limit.spec_code(),
                self.input_minimum_voltage,
                self.ldo_fet_disabled,
                self.spec_to_byte(),
            );
        }
        self.input_current_limit.code()
            | (self.input_minimum_voltage << 3u8)
            | (flag_bit(self.ldo_fet_disabled) << 7u8)
    }

    proof fn lemma_encode_decode(byte: u8) {
        lemma_input_source_control_unpack(byte);
        assert(InputCurrentLimit::spec_from_code(byte & 0x7).spec_code() == byte & 0x7);
    }

    proof fn lemma_decode_encode(reg: Self) {
        lemma_input_source_control_pack(
            reg.input_current_limit.spec_code(),
            reg.input_minimum_voltage,
            reg.ldo_fet_disabled,
            reg.spec_to_byte(),
        );
        assert(InputCurrentLimit::spec_from_code(reg.input_current_limit.spec_code())
            == reg.input_current_limit);
    }
}

impl ReadWriteRegister for InputSourceControl {
    proof fn lemma_writable_address() {
    }
}

impl Default for InputSourceControl {
    /// The power-on reset value, `INPUT_SOURCE_CONTROL_RESET`.
    fn default() -> (r: Self)
        ensures
            r.input_current_limit == InputCurrentLimit::I470mA,
            r.input_minimum_voltage == 9,
            r.ldo_fet_disabled == false,
            r.spec_to_byte() == INPUT_SOURCE_CONTROL_RESET,
            r == Self::spec_from_byte(INPUT_SOURCE_CONTROL_RESET),
    {
        let r = InputSourceControl {
            input_current_limit: InputCurrentLimit::I470mA,
            input_minimum_voltage: 9,
            ldo_fet_disabled: false,
        };
        proof {
            assert(pack_input_source_control(3u8, 9u8, false) == 0b0100_1011) by (bit_vector);
            Self::lemma_decode_encode(r);
        }
        r
    }
}

/// Power-on configuration register, read-write, at 0x01.
///
/// Layout, from bit 0:
/// - bits 0-2: `uvlo_threshold`
/// - bit 3: `charge_disabled`
/// - bit 6: `watchdog_timer_reset`
/// - bit 7: `settings_reset`
/// - reserved: bits 4, 5
#[derive(Structural, PartialEq, Eq, Debug, Clone, Copy)]
pub struct PowerOnConfiguration {
    pub uvlo_threshold: UVLOThreshold,
    pub charge_disabled: bool,
    pub watchdog_timer_reset: bool,
    pub settings_reset: bool,
}

/// Power-on reset value of the power-on configuration register.
pub const POWER_ON_CONFIGURATION_RESET: u8 = 0b0000_0100;

/// The byte whose fields hold these codes, reserved bits zero.
pub open spec fn pack_power_on_configuration(
    uvlo_threshold: u8,
    charge_disabled: bool,
    watchdog_timer_reset: bool,
    settings_reset: bool,
) -> u8 {
    uvlo_threshold
        | (flag(charge_disabled) << 3u8)
        | (flag(watchdog_timer_reset) << 6u8)
        | (flag(settings_reset) << 7u8)
}

proof fn lemma_power_on_configuration_pack(
    uvlo_threshold: u8,
    charge_disabled: bool,
    watchdog_timer_reset: bool,
    settings_reset: bool,
    packed: u8,
)
    by (bit_vector)
    requires
        uvlo_threshold < 8,
        packed == pack_power_on_configuration(
            uvlo_threshold,
            charge_disabled,
            watchdog_timer_reset,
            settings_reset,
        ),
    ensures
        packed & 0x7 == uvlo_threshold,
        ((packed >> 3u8) & 0x1 == 1) == charge_disabled,
        packed & 0x8 == (flag(charge_disabled) << 3u8),
        ((packed >> 6u8) & 0x1 == 1) == watchdog_timer_reset,
        packed & 0x40 == (flag(watchdog_timer_reset) << 6u8),
        ((packed >> 7u8) & 0x1 == 1) == settings_reset,
        packed & 0x80 == (flag(settings_reset) << 7u8),
        packed & !0xcfu8 == 0,
{
}

proof fn lemma_power_on_configuration_unpack(byte: u8)
    by (bit_vector)
    ensures
        pack_power_on_configuration(
            byte & 0x7,
            (byte >> 3u8) & 0x1 == 1,
            (byte >> 6u8) & 0x1 == 1,
            (byte >> 7u8) & 0x1 == 1,
        ) == byte & 0xcf,
        byte & 0x7 < 8,
{
}

impl PowerOnConfiguration {
    /// Changing one field leaves the bits of every other field as they were.
    pub proof fn lemma_field_isolation(a: Self, b: Self)
        requires
            a.wf(),
            b.wf(),
        ensures
            a.uvlo_threshold == b.uvlo_threshold
                ==> a.spec_to_byte() & 0x7 == b.spec_to_byte() & 0x7,
            a.charge_disabled == b.charge_disabled
                ==> a.spec_to_byte() & 0x8 == b.spec_to_byte() & 0x8,
            a.watchdog_timer_reset == b.watchdog_timer_reset
                ==> a.spec_to_byte() & 0x40 == b.spec_to_byte() & 0x40,
            a.settings_reset == b.settings_reset
                ==> a.spec_to_byte() & 0x80 == b.spec_to_byte() & 0x80,
    {
        lemma_power_on_configuration_pack(
            a.uvlo_threshold.spec_code(),
            a.charge_disabled,
            a.watchdog_timer_reset,
            a.settings_reset,
            a.spec_to_byte(),
        );
        lemma_power_on_configuration_pack(
            b.uvlo_threshold.spec_code(),
            b.charge_disabled,
            b.watchdog_timer_reset,
            b.settings_reset,
            b.spec_to_byte(),
        );
    }
}

impl ReadOnlyRegister for PowerOnConfiguration {
    open spec fn spec_address() -> u8 {
        0x01
    }

    open spec fn wf(&self) -> bool {
        true
    }

    open spec fn defined_bits() -> u8 {
        0xcf
    }

    open spec fn spec_from_byte(byte: u8) -> Self {
        PowerOnConfiguration {
            uvlo_threshold: UVLOThreshold::spec_from_code(byte & 0x7),
            charge_disabled: (byte >> 3u8) & 0x1 == 1,
            watchdog_timer_reset: (byte >> 6u8) & 0x1 == 1,
            settings_reset: (byte >> 7u8) & 0x1 == 1,
        }
    }

    open spec fn spec_to_byte(&self) -> u8 {
        pack_power_on_configuration(
            self.uvlo_threshold.spec_code(),
            self.charge_disabled,
            self.watchdog_timer_reset,
            self.settings_reset,
        )
    }

    fn address() -> (r: u8) {
        0x01
    }

    fn from_byte(byte: u8) -> (r: Self) {
        proof {
            lemma_power_on_configuration_unpack(byte);
        }
        PowerOnConfiguration {
            uvlo_threshold: UVLOThreshold::from_code(byte & 0x7),
            charge_disabled: (byte >> 3u8) & 0x1 == 1,
            watchdog_timer_reset: (byte >> 6u8) & 0x1 == 1,
            settings_reset: (byte >> 7u8) & 0x1 == 1,
        }
    }

    fn to_byte(&self) -> (r: u8) {
        proof {
            lemma_power_on_configuration_pack(
                self.uvlo_threshold.spec_code(),
                self.charge_disabled,
                self.watchdog_timer_reset,
                self.settings_reset,
                self.spec_to_byte(),
            );
        }
        self.uvlo_threshold.code()
            | (flag_bit(self.charge_disabled) << 3u8)
            | (flag_bit(self.watchdog_timer_reset) << 6u8)
            | (flag_bit(self.settings_reset) << 7u8)
    }

    proof fn lemma_encode_decode(byte: u8) {
        lemma_power_on_configuration_unpack(byte);
        assert(UVLOThreshold::spec_from_code(byte & 0x7).spec_code() == byte & 0x7);
    }

    proof fn lemma_decode_encode(reg: Self) {
        lemma_power_on_configuration_pack(
            reg.uvlo_threshold.spec_code(),
            reg.charge_disabled,
            reg.watchdog_timer_reset,
            reg.settings_reset,
            reg.spec_to_byte(),
        );
        assert(UVLOThreshold::spec_from_code(reg.uvlo_threshold.spec_code()) == reg.uvlo_threshold);
    }
}

impl ReadWriteRegister for PowerOnConfiguration {
    proof fn lemma_writable_address() {
    }
}

impl Default for PowerOnConfiguration {
    /// The power-on reset value, `POWER_ON_CONFIGURATION_RESET`.
    fn default() -> (r: Self)
        ensures
            r.uvlo_threshold == UVLOThreshold::U2800mV,
            r.charge_disabled == false,
            r.watchdog_timer_reset == false,
            r.settings_reset == false,
            r.spec_to_byte() == POWER_ON_CONFIGURATION_RESET,
            r == Self::spec_from_byte(POWER_ON_CONFIGURATION_RESET),
    {
        let r = PowerOnConfiguration {
            uvlo_threshold: UVLOThreshold::U2800mV,
            charge_disabled: false,
            watchdog_timer_reset: false,
            settings_reset: false,
        };
        proof {
            assert(pack_power_on_configuration(4u8, false, false, false) == 0b0000_0100)
                by (bit_vector);
            Self::lemma_decode_encode(r);
        }
        r
    }
}

/// Charge current control register, read-write, at 0x02.
///
/// Layout, from bit 0:
/// - bits 0-4: `charge_current`
/// - reserved: bits 5, 6, 7
#[derive(Structural, PartialEq, Eq, Debug, Clone, Copy)]
pub struct ChargeCurrentControl {
    /// 5 bits.
    pub charge_current: u8,
}

/// Power-on reset value of the charge current control register.
pub const CHARGE_CURRENT_CONTROL_RESET: u8 = 0b0000_0111;

/// The byte whose fields hold these codes, reserved bits zero.
pub open spec fn pack_charge_current_control(charge_current: u8) -> u8 {
    charge_current
}

proof fn lemma_charge_current_control_pack(charge_current: u8, packed: u8)
    by (bit_vector)
    requires
        charge_current < 32,
        packed == pack_charge_current_control(charge_current),
    ensures
        packed & 0x1f == charge_current,
        packed & !0x1fu8 == 0,
{
}

proof fn lemma_charge_current_control_unpack(byte: u8)
    by (bit_vector)
    ensures
        pack_charge_current_control(byte & 0x1f) == byte & 0x1f,
        byte & 0x1f < 32,
{
}

impl ChargeCurrentControl {
    /// Changing one field leaves the bits of every other field as they were.
    pub proof fn lemma_field_isolation(a: Self, b: Self)
        requires
            a.wf(),
            b.wf(),
        ensures
            a.charge_current == b.charge_current
                ==> a.spec_to_byte() & 0x1f == b.spec_to_byte() & 0x1f,
    {
        lemma_charge_current_control_pack(a.charge_current, a.spec_to_byte());
        lemma_charge_current_control_pack(b.charge_current, b.spec_to_byte());
    }
}

impl ReadOnlyRegister for ChargeCurrentControl {
    open spec fn spec_address() -> u8 {
        0x02
    }

    open spec fn wf(&self) -> bool {
        self.charge_current < 32
    }

    open spec fn defined_bits() -> u8 {
        0x1f
    }

    open spec fn spec_from_byte(byte: u8) -> Self {
        ChargeCurrentControl {
            charge_current: byte & 0x1f,
        }
    }

    open spec fn spec_to_byte(&self) -> u8 {
        pack_charge_current_control(self.charge_current)
    }

    fn address() -> (r: u8) {
        0x02
    }

    fn from_byte(byte: u8) -> (r: Self) {
        proof {
            lemma_charge_current_control_unpack(byte);
        }
        ChargeCurrentControl {
            charge_current: byte & 0x1f,
        }
    }

    fn to_byte(&self) -> (r: u8) {
        proof {
            lemma_charge_current_control_pack(self.charge_current, self.spec_to_byte());
        }
        self.charge_current
    }

    proof fn lemma_encode_decode(byte: u8) {
        lemma_charge_current_control_unpack(byte);
    }

    proof fn lemma_decode_encode(reg: Self) {
        lemma_charge_current_control_pack(reg.charge_current, reg.spec_to_byte());
    }
}

impl ReadWriteRegister for ChargeCurrentControl {
    proof fn lemma_writable_address() {
    }
}

impl Default for ChargeCurrentControl {
    /// The power-on reset value, `CHARGE_CURRENT_CONTROL_RESET`.
    fn default() -> (r: Self)
        ensures
            r.charge_current == 7,
            r.spec_to_byte() == CHARGE_CURRENT_CONTROL_RESET,
            r == Self::spec_from_byte(CHARGE_CURRENT_CONTROL_RESET),
    {
        let r = ChargeCurrentControl {
            charge_current: 7,
        };
        proof {
            assert(pack_charge_current_control(7u8) == 0b0000_0111) by (bit_vector);
            Self::lemma_decode_encode(r);
        }
        r
    }
}

/// Discharge and termination current register, read-write, at 0x03.
///
/// Layout, from bit 0:
/// - bits 0-1: `terminal_current`
/// - bits 3-6: `discharge_current_limit`
/// - reserved: bits 2, 7
#[derive(Structural, PartialEq, Eq, Debug, Clone, Copy)]
pub struct DischargeAndTerminationCurrent {
    pub terminal_current: TerminalCurrent,
    /// 4 bits.
    pub discharge_current_limit: u8,
}

/// Power-on reset value of the discharge and termination current register.
pub const DISCHARGE_AND_TERMINATION_CURRENT_RESET: u8 = 0b0100_1001;

/// The byte whose fields hold these codes, reserved bits zero.
pub open spec fn pack_discharge_and_termination_current(
    terminal_current: u8,
    discharge_current_limit: u8,
) -> u8 {
    terminal_current | (discharge_current_limit << 3u8)
}

proof fn lemma_discharge_and_termination_current_pack(
    terminal_current: u8,
    discharge_current_limit: u8,
    packed: u8,
)
    by (bit_vector)
    requires
        terminal_current < 4,
        discharge_current_limit < 16,
        packed == pack_discharge_and_termination_current(terminal_current, discharge_current_limit),
    ensures
        packed & 0x3 == terminal_current,
        (packed >> 3u8) & 0xf == discharge_current_limit,
        packed & 0x78 == (discharge_current_limit << 3u8),
        packed & !0x7bu8 == 0,
{
}

proof fn lemma_discharge_and_termination_current_unpack(byte: u8)
    by (bit_vector)
    ensures
        pack_discharge_and_termination_current(byte & 0x3, (byte >> 3u8) & 0xf) == byte & 0x7b,
        byte & 0x3 < 4,
        (byte >> 3u8) & 0xf < 16,
{
}

impl DischargeAndTerminationCurrent {
    /// Changing one field leaves the bits of every other field as they were.
    pub proof fn lemma_field_isolation(a: Self, b: Self)
        requires
            a.wf(),
            b.wf(),
        ensures
            a.terminal_current == b.terminal_current
                ==> a.spec_to_byte() & 0x3 == b.spec_to_byte() & 0x3,
            a.discharge_current_limit == b.discharge_current_limit
                ==> a.spec_to_byte() & 0x78 == b.spec_to_byte() & 0x78,
    {
        lemma_discharge_and_termination_current_pack(
            a.terminal_current.spec_code(),
            a.discharge_current_limit,
            a.spec_to_byte(),
        );
        lemma_discharge_and_termination_current_pack(
            b.terminal_current.spec_code(),
            b.discharge_current_limit,
            b.spec_to_byte(),
        );
    }
}

impl ReadOnlyRegister for DischargeAndTerminationCurrent {
    open spec fn spec_address() -> u8 {
        0x03
    }

    open spec fn wf(&self) -> bool {
        self.discharge_current_limit < 16
    }

    open spec fn defined_bits() -> u8 {
        0x7b
    }

    open spec fn spec_from_byte(byte: u8) -> Self {
        DischargeAndTerminationCurrent {
            terminal_current: TerminalCurrent::spec_from_code(byte & 0x3),
            discharge_current_limit: (byte >> 3u8) & 0xf,
        }
    }

    open spec fn spec_to_byte(&self) -> u8 {
        pack_discharge_and_termination_current(
            self.terminal_current.spec_code(),
            self.discharge_current_limit,
        )
    }

    fn address() -> (r: u8) {
        0x03
    }

    fn from_byte(byte: u8) -> (r: Self) {
        proof {
            lemma_discharge_and_termination_current_unpack(byte);
        }
        DischargeAndTerminationCurrent {
            terminal_current: TerminalCurrent::from_code(byte & 0x3),
            discharge_current_limit: (byte >> 3u8) & 0xf,
        }
    }

    fn to_byte(&self) -> (r: u8) {
        proof {
            lemma_discharge_and_termination_current_pack(
                self.terminal_current.spec_code(),
                self.discharge_current_limit,
                self.spec_to_byte(),
            );
        }
        self.terminal_current.code() | (self.discharge_current_limit << 3u8)
    }

    proof fn lemma_encode_decode(byte: u8) {
        lemma_discharge_and_termination_current_unpack(byte);
        assert(TerminalCurrent::spec_from_code(byte & 0x3).spec_code() == byte & 0x3);
    }

    proof fn lemma_decode_encode(reg: Self) {
        lemma_discharge_and_termination_current_pack(
            reg.terminal_current.spec_code(),
            reg.discharge_current_limit,
            reg.spec_to_byte(),
        );
        assert(TerminalCurrent::spec_from_code(reg.terminal_current.spec_code())
            == reg.terminal_current);
    }
}

impl ReadWriteRegister for DischargeAndTerminationCurrent {
    proof fn lemma_writable_address() {
    }
}

impl Default for DischargeAndTerminationCurrent {
    /// The power-on reset value, `DISCHARGE_AND_TERMINATION_CURRENT_RESET`.
    fn default() -> (r: Self)
        ensures
            r.terminal_current == TerminalCurrent::I52mA,
            r.discharge_current_limit == 9,
            r.spec_to_byte() == DISCHARGE_AND_TERMINATION_CURRENT_RESET,
            r == Self::spec_from_byte(DISCHARGE_AND_TERMINATION_CURRENT_RESET),
    {
        let r = DischargeAndTerminationCurrent {
            terminal_current: TerminalCurrent::I52mA,
            discharge_current_limit: 9,
        };
        proof {
            assert(pack_discharge_and_termination_current(1u8, 9u8) == 0b0100_1001) by (bit_vector);
            Self::lemma_decode_encode(r);
        }
        r
    }
}

/// Charge voltage control register, read-write, at 0x04.
///
/// Layout, from bit 0:
/// - bit 0: `recharge_threshold`
/// - bit 1: `precharge_threshold`
/// - bits 2-7: `regulation_voltage`
#[derive(Structural, PartialEq, Eq, Debug, Clone, Copy)]
pub struct ChargeVoltageControl {
    pub recharge_threshold: RechargeThreshold,
    pub precharge_threshold: PrechargeThreshold,
    /// 6 bits.
    pub regulation_voltage: u8,
}

/// Power-on reset value of the charge voltage control register.
pub const CHARGE_VOLTAGE_CONTROL_RESET: u8 = 0b1010_0011;

/// The byte whose fields hold these codes, reserved bits zero.
pub open spec fn pack_charge_voltage_control(
    recharge_threshold: u8,
    precharge_threshold: u8,
    regulation_voltage: u8,
) -> u8 {
    recharge_threshold | (precharge_threshold << 1u8) | (regulation_voltage << 2u8)
}

proof fn lemma_charge_voltage_control_pack(
    recharge_threshold: u8,
    precharge_threshold: u8,
    regulation_voltage: u8,
    packed: u8,
)
    by (bit_vector)
    requires
        recharge_threshold < 2,
        precharge_threshold < 2,
        regulation_voltage < 64,
        packed == pack_charge_voltage_control(
            recharge_threshold,
            precharge_threshold,
            regulation_voltage,
        ),
    ensures
        packed & 0x1 == recharge_threshold,
        (packed >> 1u8) & 0x1 == precharge_threshold,
        packed & 0x2 == (precharge_threshold << 1u8),
        (packed >> 2u8) & 0x3f == regulation_voltage,
        packed & 0xfc == (regulation_voltage << 2u8),
        packed & !0xffu8 == 0,
{
}

proof fn lemma_charge_voltage_control_unpack(byte: u8)
    by (bit_vector)
    ensures
        pack_charge_voltage_control(
            byte & 0x1,
            (byte >> 1u8) & 0x1,
            (byte >> 2u8) & 0x3f,
        ) == byte & 0xff,
        byte & 0x1 < 2,
        (byte >> 1u8) & 0x1 < 2,
        (byte >> 2u8) & 0x3f < 64,
{
}

impl ChargeVoltageControl {
    /// Changing one field leaves the bits of every other field as they were.
    pub proof fn lemma_field_isolation(a: Self, b: Self)
        requires
            a.wf(),
            b.wf(),
        ensures
            a.recharge_threshold == b.recharge_threshold
                ==> a.spec_to_byte() & 0x1 == b.spec_to_byte() & 0x1,
            a.precharge_threshold == b.precharge_threshold
                ==> a.spec_to_byte() & 0x2 == b.spec_to_byte() & 0x2,
            a.regulation_voltage == b.regulation_voltage
                ==> a.spec_to_byte() & 0xfc == b.spec_to_byte() & 0xfc,
    {
        lemma_charge_voltage_control_pack(
            a.recharge_threshold.spec_code(),
            a.precharge_threshold.spec_code(),
            a.regulation_voltage,
            a.spec_to_byte(),
        );
        lemma_charge_voltage_control_pack(
            b.recharge_threshold.spec_code(),
            b.precharge_threshold.spec_code(),
            b.regulation_voltage,
            b.spec_to_byte(),
        );
    }
}

impl ReadOnlyRegister for ChargeVoltageControl {
    open spec fn spec_address() -> u8 {
        0x04
    }

    open spec fn wf(&self) -> bool {
        self.regulation_voltage < 64
    }

    open spec fn defined_bits() -> u8 {
        0xff
    }

    open spec fn spec_from_byte(byte: u8) -> Self {
        ChargeVoltageControl {
            recharge_threshold: RechargeThreshold::spec_from_code(byte & 0x1),
            precharge_threshold: PrechargeThreshold::spec_from_code((byte >> 1u8) & 0x1),
            regulation_voltage: (byte >> 2u8) & 0x3f,
        }
    }

    open spec fn spec_to_byte(&self) -> u8 {
        pack_charge_voltage_control(
            self.recharge_threshold.spec_code(),
            self.precharge_threshold.spec_code(),
            self.regulation_voltage,
        )
    }

    fn address() -> (r: u8) {
        0x04
    }

    fn from_byte(byte: u8) -> (r: Self) {
        proof {
            lemma_charge_voltage_control_unpack(byte);
        }
        ChargeVoltageControl {
            recharge_threshold: RechargeThreshold::from_code(byte & 0x1),
            precharge_threshold: PrechargeThreshold::from_code((byte >> 1u8) & 0x1),
            regulation_voltage: (byte >> 2u8) & 0x3f,
        }
    }

    fn to_byte(&self) -> (r: u8) {
        proof {
            lemma_charge_voltage_control_pack(
                self.recharge_threshold.spec_code(),
                self.precharge_threshold.spec_code(),
                self.regulation_voltage,
                self.spec_to_byte(),
            );
        }
        self.recharge_threshold.code()
            | (self.precharge_threshold.code() << 1u8)
            | (self.regulation_voltage << 2u8)
    }

    proof fn lemma_encode_decode(byte: u8) {
        lemma_charge_voltage_control_unpack(byte);
        assert(RechargeThreshold::spec_from_code(byte & 0x1).spec_code() == byte & 0x1);
        assert(PrechargeThreshold::spec_from_code((byte >> 1u8) & 0x1).spec_code()
            == (byte >> 1u8) & 0x1);
    }

    proof fn lemma_decode_encode(reg: Self) {
        lemma_charge_voltage_control_pack(
            reg.recharge_threshold.spec_code(),
            reg.precharge_threshold.spec_code(),
            reg.regulation_voltage,
            reg.spec_to_byte(),
        );
        assert(RechargeThreshold::spec_from_code(reg.recharge_threshold.spec_code())
            == reg.recharge_threshold);
        assert(PrechargeThreshold::spec_from_code(reg.precharge_threshold.spec_code())
            == reg.precharge_threshold);
    }
}

impl ReadWriteRegister for ChargeVoltageControl {
    proof fn lemma_writable_address() {
    }
}

impl Default for ChargeVoltageControl {
    /// The power-on reset value, `CHARGE_VOLTAGE_CONTROL_RESET`.
    fn default() -> (r: Self)
        ensures
            r.recharge_threshold == RechargeThreshold::U300mV,
            r.precharge_threshold == PrechargeThreshold::U3000mV,
            r.regulation_voltage == 40,
            r.spec_to_byte() == CHARGE_VOLTAGE_CONTROL_RESET,
            r == Self::spec_from_byte(CHARGE_VOLTAGE_CONTROL_RESET),
    {
        let r = ChargeVoltageControl {
            recharge_threshold: RechargeThreshold::U300mV,
            precharge_threshold: PrechargeThreshold::U3000mV,
            regulation_voltage: 40,
        };
        proof {
            assert(pack_charge_voltage_control(1u8, 1u8, 40u8) == 0b1010_0011) by (bit_vector);
            Self::lemma_decode_encode(r);
        }
        r
    }
}

/// Charge termination and timer control register, read-write, at 0x05.
///
/// Layout, from bit 0:
/// - bit 0: `termination_control_enabled`
/// - bits 1-2: `timer_period`
/// - bit 3: `timer_enabled`
/// - bits 4-5: `timer_limit`
/// - bit 6: `termination_enabled`
/// - reserved: bit 7
#[derive(Structural, PartialEq, Eq, Debug, Clone, Copy)]
pub struct ChargeTerminationAndTimerControl {
    pub termination_control_enabled: bool,
    pub timer_period: SafetyTimerPeriod,
    pub timer_enabled: bool,
    pub timer_limit: WatchdogTimerLimit,
    pub termination_enabled: bool,
}

/// Power-on reset value of the charge termination and timer control register.
pub const CHARGE_TERMINATION_AND_TIMER_CONTROL_RESET: u8 = 0b0100_1010;

/// The byte whose fields hold these codes, reserved bits zero.
pub open spec fn pack_charge_termination_and_timer_control(
    termination_control_enabled: bool,
    timer_period: u8,
    timer_enabled: bool,
    timer_limit: u8,
    termination_enabled: bool,
) -> u8 {
    flag(termination_control_enabled)
        | (timer_period << 1u8)
        | (flag(timer_enabled) << 3u8)
        | (timer_limit << 4u8)
        | (flag(termination_enabled) << 6u8)
}

proof fn lemma_charge_termination_and_timer_control_pack(
    termination_control_enabled: bool,
    timer_period: u8,
    timer_enabled: bool,
    timer_limit: u8,
    termination_enabled: bool,
    packed: u8,
)
    by (bit_vector)
    requires
        timer_period < 4,
        timer_limit < 4,
        packed == pack_charge_termination_and_timer_control(
            termination_control_enabled,
            timer_period,
            timer_enabled,
            timer_limit,
            termination_enabled,
        ),
    ensures
        (packed & 0x1 == 1) == termination_control_enabled,
        packed & 0x1 == flag(termination_control_enabled),
        (packed >> 1u8) & 0x3 == timer_period,
        packed & 0x6 == (timer_period << 1u8),
        ((packed >> 3u8) & 0x1 == 1) == timer_enabled,
        packed & 0x8 == (flag(timer_enabled) << 3u8),
        (packed >> 4u8) & 0x3 == timer_limit,
        packed & 0x30 == (timer_limit << 4u8),
        ((packed >> 6u8) & 0x1 == 1) == termination_enabled,
        packed & 0x40 == (flag(termination_enabled) << 6u8),
        packed & !0x7fu8 == 0,
{
}

proof fn lemma_charge_termination_and_timer_control_unpack(byte: u8)
    by (bit_vector)
    ensures
        pack_charge_termination_and_timer_control(
            byte & 0x1 == 1,
            (byte >> 1u8) & 0x3,
            (byte >> 3u8) & 0x1 == 1,
            (byte >> 4u8) & 0x3,
            (byte >> 6u8) & 0x1 == 1,
        ) == byte & 0x7f,
        (byte >> 1u8) & 0x3 < 4,
        (byte >> 4u8) & 0x3 < 4,
{
}

impl ChargeTerminationAndTimerControl {
    /// Changing one field leaves the bits of every other field as they were.
    pub proof fn lemma_field_isolation(a: Self, b: Self)
        requires
            a.wf(),
            b.wf(),
        ensures
            a.termination_control_enabled == b.termination_control_enabled
                ==> a.spec_to_byte() & 0x1 == b.spec_to_byte() & 0x1,
            a.timer_period == b.timer_period ==> a.spec_to_byte() & 0x6 == b.spec_to_byte() & 0x6,
            a.timer_enabled == b.timer_enabled ==> a.spec_to_byte() & 0x8 == b.spec_to_byte() & 0x8,
            a.timer_limit == b.timer_limit ==> a.spec_to_byte() & 0x30 == b.spec_to_byte() & 0x30,
            a.termination_enabled == b.termination_enabled
                ==> a.spec_to_byte() & 0x40 == b.spec_to_byte() & 0x40,
    {
        lemma_charge_termination_and_timer_control_pack(
            a.termination_control_enabled,
            a.timer_period.spec_code(),
            a.timer_enabled,
            a.timer_limit.spec_code(),
            a.termination_enabled,
            a.spec_to_byte(),
        );
        lemma_charge_termination_and_timer_control_pack(
            b.termination_control_enabled,
            b.timer_period.spec_code(),
            b.timer_enabled,
            b.timer_limit.spec_code(),
            b.termination_enabled,
            b.spec_to_byte(),
        );
    }
}

impl ReadOnlyRegister for ChargeTerminationAndTimerControl {
    open spec fn spec_address() -> u8 {
        0x05
    }

    open spec fn wf(&self) -> bool {
        true
    }

    open spec fn defined_bits() -> u8 {
        0x7f
    }

    open spec fn spec_from_byte(byte: u8) -> Self {
        ChargeTerminationAndTimerControl {
            termination_control_enabled: byte & 0x1 == 1,
            timer_period: SafetyTimerPeriod::spec_from_code((byte >> 1u8) & 0x3),
            timer_enabled: (byte >> 3u8) & 0x1 == 1,
            timer_limit: WatchdogTimerLimit::spec_from_code((byte >> 4u8) & 0x3),
            termination_enabled: (byte >> 6u8) & 0x1 == 1,
        }
    }

    open spec fn spec_to_byte(&self) -> u8 {
        pack_charge_termination_and_timer_control(
            self.termination_control_enabled,
            self.timer_period.spec_code(),
            self.timer_enabled,
            self.timer_limit.spec_code(),
            self.termination_enabled,
        )
    }

    fn address() -> (r: u8) {
        0x05
    }

    fn from_byte(byte: u8) -> (r: Self) {
        proof {
            lemma_charge_termination_and_timer_control_unpack(byte);
        }
        ChargeTerminationAndTimerControl {
            termination_control_enabled: byte & 0x1 == 1,
            timer_period: SafetyTimerPeriod::from_code((byte >> 1u8) & 0x3),
            timer_enabled: (byte >> 3u8) & 0x1 == 1,
            timer_limit: WatchdogTimerLimit::from_code((byte >> 4u8) & 0x3),
            termination_enabled: (byte >> 6u8) & 0x1 == 1,
        }
    }

    fn to_byte(&self) -> (r: u8) {
        proof {
            lemma_charge_termination_and_timer_control_pack(
                self.termination_control_enabled,
                self.timer_period.spec_code(),
                self.timer_enabled,
                self.timer_limit.spec_code(),
                self.termination_enabled,
                self.spec_to_byte(),
            );
        }
        flag_bit(self.termination_control_enabled)
            | (self.timer_period.code() << 1u8)
            | (flag_bit(self.timer_enabled) << 3u8)
            | (self.timer_limit.code() << 4u8)
            | (flag_bit(self.termination_enabled) << 6u8)
    }

    proof fn lemma_encode_decode(byte: u8) {
        lemma_charge_termination_and_timer_control_unpack(byte);
        assert(SafetyTimerPeriod::spec_from_code((byte >> 1u8) & 0x3).spec_code()
            == (byte >> 1u8) & 0x3);
        assert(WatchdogTimerLimit::spec_from_code((byte >> 4u8) & 0x3).spec_code()
            == (byte >> 4u8) & 0x3);
    }

    proof fn lemma_decode_encode(reg: Self) {
        lemma_charge_termination_and_timer_control_pack(
            reg.termination_control_enabled,
            reg.timer_period.spec_code(),
            reg.timer_enabled,
            reg.timer_limit.spec_code(),
            reg.termination_enabled,
            reg.spec_to_byte(),
        );
        assert(SafetyTimerPeriod::spec_from_code(reg.timer_period.spec_code()) == reg.timer_period);
        assert(WatchdogTimerLimit::spec_from_code(reg.timer_limit.spec_code()) == reg.timer_limit);
    }
}

impl ReadWriteRegister for ChargeTerminationAndTimerControl {
    proof fn lemma_writable_address() {
    }
}

impl Default for ChargeTerminationAndTimerControl {
    /// The power-on reset value, `CHARGE_TERMINATION_AND_TIMER_CONTROL_RESET`.
    fn default() -> (r: Self)
        ensures
            r.termination_control_enabled == false,
            r.timer_period == SafetyTimerPeriod::P5h,
            r.timer_enabled == true,
            r.timer_limit == WatchdogTimerLimit::Disabled,
            r.termination_enabled == true,
            r.spec_to_byte() == CHARGE_TERMINATION_AND_TIMER_CONTROL_RESET,
            r == Self::spec_from_byte(CHARGE_TERMINATION_AND_TIMER_CONTROL_RESET),
    {
        let r = ChargeTerminationAndTimerControl {
            termination_control_enabled: false,
            timer_period: SafetyTimerPeriod::P5h,
            timer_enabled: true,
            timer_limit: WatchdogTimerLimit::Disabled,
            termination_enabled: true,
        };
        proof {
            assert(pack_charge_termination_and_timer_control(false, 1u8, true, 0u8, true) == 0b0100_1010)
                by (bit_vector);
            Self::lemma_decode_encode(r);
        }
        r
    }
}

/// Miscellaneous operation control register, read-write, at 0x06.
///
/// Layout, from bit 0:
/// - bits 0-1: `thermal_regulation_threshold`
/// - bit 3: `ntc_enabled`
/// - bit 5: `battery_fet_disabled`
/// - bit 6: `extended_safety_timer`
/// - reserved: bits 2, 4, 7
#[derive(Structural, PartialEq, Eq, Debug, Clone, Copy)]
pub struct MiscellaneousOperationControl {
    pub thermal_regulation_threshold: ThermalThreshold,
    pub ntc_enabled: bool,
    pub battery_fet_disabled: bool,
    pub extended_safety_timer: bool,
}

/// Power-on reset value of the miscellaneous operation control register.
pub const MISCELLANEOUS_OPERATION_CONTROL_RESET: u8 = 0b0000_1011;

/// The byte whose fields hold these codes, reserved bits zero.
pub open spec fn pack_miscellaneous_operation_control(
    thermal_regulation_threshold: u8,
    ntc_enabled: bool,
    battery_fet_disabled: bool,
    extended_safety_timer: bool,
) -> u8 {
    thermal_regulation_threshold
        | (flag(ntc_enabled) << 3u8)
        | (flag(battery_fet_disabled) << 5u8)
        | (flag(extended_safety_timer) << 6u8)
}

proof fn lemma_miscellaneous_operation_control_pack(
    thermal_regulation_threshold: u8,
    ntc_enabled: bool,
    battery_fet_disabled: bool,
    extended_safety_timer: bool,
    packed: u8,
)
    by (bit_vector)
    requires
        thermal_regulation_threshold < 4,
        packed == pack_miscellaneous_operation_control(
            thermal_regulation_threshold,
            ntc_enabled,
            battery_fet_disabled,
            extended_safety_timer,
        ),
    ensures
        packed & 0x3 == thermal_regulation_threshold,
        ((packed >> 3u8) & 0x1 == 1) == ntc_enabled,
        packed & 0x8 == (flag(ntc_enabled) << 3u8),
        ((packed >> 5u8) & 0x1 == 1) == battery_fet_disabled,
        packed & 0x20 == (flag(battery_fet_disabled) << 5u8),
        ((packed >> 6u8) & 0x1 == 1) == extended_safety_timer,
        packed & 0x40 == (flag(extended_safety_timer) << 6u8),
        packed & !0x6bu8 == 0,
{
}

proof fn lemma_miscellaneous_operation_control_unpack(byte: u8)
    by (bit_vector)
    ensures
        pack_miscellaneous_operation_control(
            byte & 0x3,
            (byte >> 3u8) & 0x1 == 1,
            (byte >> 5u8) & 0x1 == 1,
            (byte >> 6u8) & 0x1 == 1,
        ) == byte & 0x6b,
        byte & 0x3 < 4,
{
}

impl MiscellaneousOperationControl {
    /// Changing one field leaves the bits of every other field as they were.
    pub proof fn lemma_field_isolation(a: Self, b: Self)
        requires
            a.wf(),
            b.wf(),
        ensures
            a.thermal_regulation_threshold == b.thermal_regulation_threshold
                ==> a.spec_to_byte() & 0x3 == b.spec_to_byte() & 0x3,
            a.ntc_enabled == b.ntc_enabled ==> a.spec_to_byte() & 0x8 == b.spec_to_byte() & 0x8,
            a.battery_fet_disabled == b.battery_fet_disabled
                ==> a.spec_to_byte() & 0x20 == b.spec_to_byte() & 0x20,
            a.extended_safety_timer == b.extended_safety_timer
                ==> a.spec_to_byte() & 0x40 == b.spec_to_byte() & 0x40,
    {
        lemma_miscellaneous_operation_control_pack(
            a.thermal_regulation_threshold.spec_code(),
            a.ntc_enabled,
            a.battery_fet_disabled,
            a.extended_safety_timer,
            a.spec_to_byte(),
        );
        lemma_miscellaneous_operation_control_pack(
            b.thermal_regulation_threshold.spec_code(),
            b.ntc_enabled,
            b.battery_fet_disabled,
            b.extended_safety_timer,
            b.spec_to_byte(),
        );
    }
}

impl ReadOnlyRegister for MiscellaneousOperationControl {
    open spec fn spec_address() -> u8 {
        0x06
    }

    open spec fn wf(&self) -> bool {
        true
    }

    open spec fn defined_bits() -> u8 {
        0x6b
    }

    open spec fn spec_from_byte(byte: u8) -> Self {
        MiscellaneousOperationControl {
            thermal_regulation_threshold: ThermalThreshold::spec_from_code(byte & 0x3),
            ntc_enabled: (byte >> 3u8) & 0x1 == 1,
            battery_fet_disabled: (byte >> 5u8) & 0x1 == 1,
            extended_safety_timer: (byte >> 6u8) & 0x1 == 1,
        }
    }

    open spec fn spec_to_byte(&self) -> u8 {
        pack_miscellaneous_operation_control(
            self.thermal_regulation_threshold.spec_code(),
            self.ntc_enabled,
            self.battery_fet_disabled,
            self.extended_safety_timer,
        )
    }

    fn address() -> (r: u8) {
        0x06
    }

    fn from_byte(byte: u8) -> (r: Self) {
        proof {
            lemma_miscellaneous_operation_control_unpack(byte);
        }
        MiscellaneousOperationControl {
            thermal_regulation_threshold: ThermalThreshold::from_code(byte & 0x3),
            ntc_enabled: (byte >> 3u8) & 0x1 == 1,
            battery_fet_disabled: (byte >> 5u8) & 0x1 == 1,
            extended_safety_timer: (byte >> 6u8) & 0x1 == 1,
        }
    }

    fn to_byte(&self) -> (r: u8) {
        proof {
            lemma_miscellaneous_operation_control_pack(
                self.thermal_regulation_threshold.spec_code(),
                self.ntc_enabled,
                self.battery_fet_disabled,
                self.extended_safety_timer,
                self.spec_to_byte(),
            );
        }
        self.thermal_regulation_threshold.code()
            | (flag_bit(self.ntc_enabled) << 3u8)
            | (flag_bit(self.battery_fet_disabled) << 5u8)
            | (flag_bit(self.extended_safety_timer) << 6u8)
    }

    proof fn lemma_encode_decode(byte: u8) {
        lemma_miscellaneous_operation_control_unpack(byte);
        assert(ThermalThreshold::spec_from_code(byte & 0x3).spec_code() == byte & 0x3);
    }

    proof fn lemma_decode_encode(reg: Self) {
        lemma_miscellaneous_operation_control_pack(
            reg.thermal_regulation_threshold.spec_code(),
            reg.ntc_enabled,
            reg.battery_fet_disabled,
            reg.extended_safety_timer,
            reg.spec_to_byte(),
        );
        assert(ThermalThreshold::spec_from_code(reg.thermal_regulation_threshold.spec_code())
            == reg.thermal_regulation_threshold);
    }
}

impl ReadWriteRegister for MiscellaneousOperationControl {
    proof fn lemma_writable_address() {
    }
}

impl Default for MiscellaneousOperationControl {
    /// The power-on reset value, `MISCELLANEOUS_OPERATION_CONTROL_RESET`.
    fn default() -> (r: Self)
        ensures
            r.thermal_regulation_threshold == ThermalThreshold::T120C,
            r.ntc_enabled == true,
            r.battery_fet_disabled == false,
            r.extended_safety_timer == false,
            r.spec_to_byte() == MISCELLANEOUS_OPERATION_CONTROL_RESET,
            r == Self::spec_from_byte(MISCELLANEOUS_OPERATION_CONTROL_RESET),
    {
        let r = MiscellaneousOperationControl {
            thermal_regulation_threshold: ThermalThreshold::T120C,
            ntc_enabled: true,
            battery_fet_disabled: false,
            extended_safety_timer: false,
        };
        proof {
            assert(pack_miscellaneous_operation_control(3u8, true, false, false) == 0b0000_1011)
                by (bit_vector);
            Self::lemma_decode_encode(r);
        }
        r
    }
}

/// System status register, read-only, at 0x07.
///
/// Layout, from bit 0:
/// - bit 0: `thermal_regulation`
/// - bit 1: `power_good`
/// - bit 2: `power_path_enabled`
/// - bits 3-4: `charge_status`
/// - bits 5-6: `revision`
/// - reserved: bit 7
#[derive(Structural, PartialEq, Eq, Debug, Clone, Copy)]
pub struct SystemStatus {
    pub thermal_regulation: bool,
    pub power_good: bool,
    pub power_path_enabled: bool,
    pub charge_status: ChargeStatus,
    /// 2 bits.
    pub revision: u8,
}

/// The byte whose fields hold these codes, reserved bits zero.
pub open spec fn pack_system_status(
    thermal_regulation: bool,
    power_good: bool,
    power_path_enabled: bool,
    charge_status: u8,
    revision: u8,
) -> u8 {
    flag(thermal_regulation)
        | (flag(power_good) << 1u8)
        | (flag(power_path_enabled) << 2u8)
        | (charge_status << 3u8)
        | (revision << 5u8)
}

proof fn lemma_system_status_pack(
    thermal_regulation: bool,
    power_good: bool,
    power_path_enabled: bool,
    charge_status: u8,
    revision: u8,
    packed: u8,
)
    by (bit_vector)
    requires
        charge_status < 4,
        revision < 4,
        packed == pack_system_status(
            thermal_regulation,
            power_good,
            power_path_enabled,
            charge_status,
            revision,
        ),
    ensures
        (packed & 0x1 == 1) == thermal_regulation,
        packed & 0x1 == flag(thermal_regulation),
        ((packed >> 1u8) & 0x1 == 1) == power_good,
        packed & 0x2 == (flag(power_good) << 1u8),
        ((packed >> 2u8) & 0x1 == 1) == power_path_enabled,
        packed & 0x4 == (flag(power_path_enabled) << 2u8),
        (packed >> 3u8) & 0x3 == charge_status,
        packed & 0x18 == (charge_status << 3u8),
        (packed >> 5u8) & 0x3 == revision,
        packed & 0x60 == (revision << 5u8),
        packed & !0x7fu8 == 0,
{
}

proof fn lemma_system_status_unpack(byte: u8)
    by (bit_vector)
    ensures
        pack_system_status(
            byte & 0x1 == 1,
            (byte >> 1u8) & 0x1 == 1,
            (byte >> 2u8) & 0x1 == 1,
            (byte >> 3u8) & 0x3,
            (byte >> 5u8) & 0x3,
        ) == byte & 0x7f,
        (byte >> 3u8) & 0x3 < 4,
        (byte >> 5u8) & 0x3 < 4,
{
}

impl SystemStatus {
    /// Changing one field leaves the bits of every other field as they were.
    pub proof fn lemma_field_isolation(a: Self, b: Self)
        requires
            a.wf(),
            b.wf(),
        ensures
            a.thermal_regulation == b.thermal_regulation
                ==> a.spec_to_byte() & 0x1 == b.spec_to_byte() & 0x1,
            a.power_good == b.power_good ==> a.spec_to_byte() & 0x2 == b.spec_to_byte() & 0x2,
            a.power_path_enabled == b.power_path_enabled
                ==> a.spec_to_byte() & 0x4 == b.spec_to_byte() & 0x4,
            a.charge_status == b.charge_status
                ==> a.spec_to_byte() & 0x18 == b.spec_to_byte() & 0x18,
            a.revision == b.revision ==> a.spec_to_byte() & 0x60 == b.spec_to_byte() & 0x60,
    {
        lemma_system_status_pack(
            a.thermal_regulation,
            a.power_good,
            a.power_path_enabled,
            a.charge_status.spec_code(),
            a.revision,
            a.spec_to_byte(),
        );
        lemma_system_status_pack(
            b.thermal_regulation,
            b.power_good,
            b.power_path_enabled,
            b.charge_status.spec_code(),
            b.revision,
            b.spec_to_byte(),
        );
    }
}

impl ReadOnlyRegister for SystemStatus {
    open spec fn spec_address() -> u8 {
        0x07
    }

    open spec fn wf(&self) -> bool {
        self.revision < 4
    }

    open spec fn defined_bits() -> u8 {
        0x7f
    }

    open spec fn spec_from_byte(byte: u8) -> Self {
        SystemStatus {
            thermal_regulation: byte & 0x1 == 1,
            power_good: (byte >> 1u8) & 0x1 == 1,
            power_path_enabled: (byte >> 2u8) & 0x1 == 1,
            charge_status: ChargeStatus::spec_from_code((byte >> 3u8) & 0x3),
            revision: (byte >> 5u8) & 0x3,
        }
    }

    open spec fn spec_to_byte(&self) -> u8 {
        pack_system_status(
            self.thermal_regulation,
            self.power_good,
            self.power_path_enabled,
            self.charge_status.spec_code(),
            self.revision,
        )
    }

    fn address() -> (r: u8) {
        0x07
    }

    fn from_byte(byte: u8) -> (r: Self) {
        proof {
            lemma_system_status_unpack(byte);
        }
        SystemStatus {
            thermal_regulation: byte & 0x1 == 1,
            power_good: (byte >> 1u8) & 0x1 == 1,
            power_path_enabled: (byte >> 2u8) & 0x1 == 1,
            charge_status: ChargeStatus::from_code((byte >> 3u8) & 0x3),
            revision: (byte >> 5u8) & 0x3,
        }
    }

    fn to_byte(&self) -> (r: u8) {
        proof {
            lemma_system_status_pack(
                self.thermal_regulation,
                self.power_good,
                self.power_path_enabled,
                self.charge_status.spec_code(),
                self.revision,
                self.spec_to_byte(),
            );
        }
        flag_bit(self.thermal_regulation)
            | (flag_bit(self.power_good) << 1u8)
            | (flag_bit(self.power_path_enabled) << 2u8)
            | (self.charge_status.code() << 3u8)
            | (self.revision << 5u8)
    }

    proof fn lemma_encode_decode(byte: u8) {
        lemma_system_status_unpack(byte);
        assert(ChargeStatus::spec_from_code((byte >> 3u8) & 0x3).spec_code()
            == (byte >> 3u8) & 0x3);
    }

    proof fn lemma_decode_encode(reg: Self) {
        lemma_system_status_pack(
            reg.thermal_regulation,
            reg.power_good,
            reg.power_path_enabled,
            reg.charge_status.spec_code(),
            reg.revision,
            reg.spec_to_byte(),
        );
        assert(ChargeStatus::spec_from_code(reg.charge_status.spec_code()) == reg.charge_status);
    }
}

/// Fault flags register, read-only, at 0x08.
///
/// Layout, from bit 0:
/// - bit 2: `safety_timer_expired`
/// - bit 3: `battery_fault`
/// - bit 4: `thermal_shutdown`
/// - bit 5: `input_fault`
/// - bit 6: `watchdog_timer_expired`
/// - reserved: bits 0, 1, 7
#[derive(Structural, PartialEq, Eq, Debug, Clone, Copy)]
pub struct FaultFlags {
    pub safety_timer_expired: bool,
    pub battery_fault: bool,
    pub thermal_shutdown: bool,
    pub input_fault: bool,
    pub watchdog_timer_expired: bool,
}

/// The byte whose fields hold these codes, reserved bits zero.
pub open spec fn pack_fault_flags(
    safety_timer_expired: bool,
    battery_fault: bool,
    thermal_shutdown: bool,
    input_fault: bool,
    watchdog_timer_expired: bool,
) -> u8 {
    (flag(safety_timer_expired) << 2u8)
        | (flag(battery_fault) << 3u8)
        | (flag(thermal_shutdown) << 4u8)
        | (flag(input_fault) << 5u8)
        | (flag(watchdog_timer_expired) << 6u8)
}

proof fn lemma_fault_flags_pack(
    safety_timer_expired: bool,
    battery_fault: bool,
    thermal_shutdown: bool,
    input_fault: bool,
    watchdog_timer_expired: bool,
    packed: u8,
)
    by (bit_vector)
    requires
        packed == pack_fault_flags(
            safety_timer_expired,
            battery_fault,
            thermal_shutdown,
            input_fault,
            watchdog_timer_expired,
        ),
    ensures
        ((packed >> 2u8) & 0x1 == 1) == safety_timer_expired,
        packed & 0x4 == (flag(safety_timer_expired) << 2u8),
        ((packed >> 3u8) & 0x1 == 1) == battery_fault,
        packed & 0x8 == (flag(battery_fault) << 3u8),
        ((packed >> 4u8) & 0x1 == 1) == thermal_shutdown,
        packed & 0x10 == (flag(thermal_shutdown) << 4u8),
        ((packed >> 5u8) & 0x1 == 1) == input_fault,
        packed & 0x20 == (flag(input_fault) << 5u8),
        ((packed >> 6u8) & 0x1 == 1) == watchdog_timer_expired,
        packed & 0x40 == (flag(watchdog_timer_expired) << 6u8),
        packed & !0x7cu8 == 0,
{
}

proof fn lemma_fault_flags_unpack(byte: u8)
    by (bit_vector)
    ensures
        pack_fault_flags(
            (byte >> 2u8) & 0x1 == 1,
            (byte >> 3u8) & 0x1 == 1,
            (byte >> 4u8) & 0x1 == 1,
            (byte >> 5u8) & 0x1 == 1,
            (byte >> 6u8) & 0x1 == 1,
        ) == byte & 0x7c,
{
}

impl FaultFlags {
    /// Changing one field leaves the bits of every other field as they were.
    pub proof fn lemma_field_isolation(a: Self, b: Self)
        requires
            a.wf(),
            b.wf(),
        ensures
            a.safety_timer_expired == b.safety_timer_expired
                ==> a.spec_to_byte() & 0x4 == b.spec_to_byte() & 0x4,
            a.battery_fault == b.battery_fault ==> a.spec_to_byte() & 0x8 == b.spec_to_byte() & 0x8,
            a.thermal_shutdown == b.thermal_shutdown
                ==> a.spec_to_byte() & 0x10 == b.spec_to_byte() & 0x10,
            a.input_fault == b.input_fault ==> a.spec_to_byte() & 0x20 == b.spec_to_byte() & 0x20,
            a.watchdog_timer_expired == b.watchdog_timer_expired
                ==> a.spec_to_byte() & 0x40 == b.spec_to_byte() & 0x40,
    {
        lemma_fault_flags_pack(
            a.safety_timer_expired,
            a.battery_fault,
            a.thermal_shutdown,
            a.input_fault,
            a.watchdog_timer_expired,
            a.spec_to_byte(),
        );
        lemma_fault_flags_pack(
            b.safety_timer_expired,
            b.battery_fault,
            b.thermal_shutdown,
            b.input_fault,
            b.watchdog_timer_expired,
            b.spec_to_byte(),
        );
    }
}

impl ReadOnlyRegister for FaultFlags {
    open spec fn spec_address() -> u8 {
        0x08
    }

    open spec fn wf(&self) -> bool {
        true
    }

    open spec fn defined_bits() -> u8 {
        0x7c
    }

    open spec fn spec_from_byte(byte: u8) -> Self {
        FaultFlags {
            safety_timer_expired: (byte >> 2u8) & 0x1 == 1,
            battery_fault: (byte >> 3u8) & 0x1 == 1,
            thermal_shutdown: (byte >> 4u8) & 0x1 == 1,
            input_fault: (byte >> 5u8) & 0x1 == 1,
            watchdog_timer_expired: (byte >> 6u8) & 0x1 == 1,
        }
    }

    open spec fn spec_to_byte(&self) -> u8 {
        pack_fault_flags(
            self.safety_timer_expired,
            self.battery_fault,
            self.thermal_shutdown,
            self.input_fault,
            self.watchdog_timer_expired,
        )
    }

    fn address() -> (r: u8) {
        0x08
    }

    fn from_byte(byte: u8) -> (r: Self) {
        proof {
            lemma_fault_flags_unpack(byte);
        }
        FaultFlags {
            safety_timer_expired: (byte >> 2u8) & 0x1 == 1,
            battery_fault: (byte >> 3u8) & 0x1 == 1,
            thermal_shutdown: (byte >> 4u8) & 0x1 == 1,
            input_fault: (byte >> 5u8) & 0x1 == 1,
            watchdog_timer_expired: (byte >> 6u8) & 0x1 == 1,
        }
    }

    fn to_byte(&self) -> (r: u8) {
        proof {
            lemma_fault_flags_pack(
                self.safety_timer_expired,
                self.battery_fault,
                self.thermal_shutdown,
                self.input_fault,
                self.watchdog_timer_expired,
                self.spec_to_byte(),
            );
        }
        (flag_bit(self.safety_timer_expired) << 2u8)
            | (flag_bit(self.battery_fault) << 3u8)
            | (flag_bit(self.thermal_shutdown) << 4u8)
            | (flag_bit(self.input_fault) << 5u8)
            | (flag_bit(self.watchdog_timer_expired) << 6u8)
    }

    proof fn lemma_encode_decode(byte: u8) {
        lemma_fault_flags_unpack(byte);
    }

    proof fn lemma_decode_encode(reg: Self) {
        lemma_fault_flags_pack(
            reg.safety_timer_expired,
            reg.battery_fault,
            reg.thermal_shutdown,
            reg.input_fault,
            reg.watchdog_timer_expired,
            reg.spec_to_byte(),
        );
    }
}
/// The status and fault registers sit at the read-only addresses, so no write request
/// can reach them.
pub proof fn lemma_status_registers_read_only()
    ensures
        is_read_only_address(SystemStatus::spec_address()),
        is_read_only_address(FaultFlags::spec_address()),
{
}

} // verus!
