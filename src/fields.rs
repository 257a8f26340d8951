use vstd::prelude::*;

verus! {

/// Input current limit selected in `InputSourceControl`.
/// Encoded on 3 bits: every pattern of that width names a variant.
#[derive(Structural, PartialEq, Eq, Debug, Clone, Copy)]
pub enum InputCurrentLimit {
    I77mA,
    I118mA,
    I345mA,
    I470mA,
    I540mA,
    I635mA,
    I734mA,
    I993mA,
}

impl InputCurrentLimit {
    /// The bit pattern of this variant within its field.
    pub open spec fn spec_code(self) -> u8 {
        match self {
            InputCurrentLimit::I77mA => 0,
            InputCurrentLimit::I118mA => 1,
            InputCurrentLimit::I345mA => 2,
            InputCurrentLimit::I470mA => 3,
            InputCurrentLimit::I540mA => 4,
            InputCurrentLimit::I635mA => 5,
            InputCurrentLimit::I734mA => 6,
            InputCurrentLimit::I993mA => 7,
        }
    }

    /// The variant that a 3-bit pattern names.
    pub open spec fn spec_from_code(code: u8) -> Self {
        if code == 0 {
            InputCurrentLimit::I77mA
        } else if code == 1 {
            InputCurrentLimit::I118mA
        } else if code == 2 {
            InputCurrentLimit::I345mA
        } else if code == 3 {
            InputCurrentLimit::I470mA
        } else if code == 4 {
            InputCurrentLimit::I540mA
        } else if code == 5 {
            InputCurrentLimit::I635mA
        } else if code == 6 {
            InputCurrentLimit::I734mA
        } else {
            InputCurrentLimit::I993mA
        }
    }

    pub fn code(self) -> (r: u8)
        ensures
            r == self.spec_code(),
            r < 8,
            Self::spec_from_code(r) == self,
    {
        match self {
            InputCurrentLimit::I77mA => 0,
            InputCurrentLimit::I118mA => 1,
            InputCurrentLimit::I345mA => 2,
            InputCurrentLimit::I470mA => 3,
            InputCurrentLimit::I540mA => 4,
            InputCurrentLimit::I635mA => 5,
            InputCurrentLimit::I734mA => 6,
            InputCurrentLimit::I993mA => 7,
        }
    }

    pub fn from_code(code: u8) -> (r: Self)
        requires
            code < 8,
        ensures
            r == Self::spec_from_code(code),
            r.spec_code() == code,
    {
        if code == 0 {
            InputCurrentLimit::I77mA
        } else if code == 1 {
            InputCurrentLimit::I118mA
        } else if code == 2 {
            InputCurrentLimit::I345mA
        } else if code == 3 {
            InputCurrentLimit::I470mA
        } else if code == 4 {
            InputCurrentLimit::I540mA
        } else if code == 5 {
            InputCurrentLimit::I635mA
        } else if code == 6 {
            InputCurrentLimit::I734mA
        } else {
            InputCurrentLimit::I993mA
        }
    }
}

/// Battery under-voltage lockout threshold selected in `PowerOnConfiguration`.
/// Encoded on 3 bits: every pattern of that width names a variant.
#[derive(Structural, PartialEq, Eq, Debug, Clone, Copy)]
pub enum UVLOThreshold {
    U2400mV,
    U2500mV,
    U2600mV,
    U2700mV,
    U2800mV,
    U2900mV,
    U3000mV,
    U3100mV,
}

impl UVLOThreshold {
    /// The bit pattern of this variant within its field.
    pub open spec fn spec_code(self) -> u8 {
        match self {
            UVLOThreshold::U2400mV => 0,
            UVLOThreshold::U2500mV => 1,
            UVLOThreshold::U2600mV => 2,
            UVLOThreshold::U2700mV => 3,
            UVLOThreshold::U2800mV => 4,
            UVLOThreshold::U2900mV => 5,
            UVLOThreshold::U3000mV => 6,
            UVLOThreshold::U3100mV => 7,
        }
    }

    /// The variant that a 3-bit pattern names.
    pub open spec fn spec_from_code(code: u8) -> Self {
        if code == 0 {
            UVLOThreshold::U2400mV
        } else if code == 1 {
            UVLOThreshold::U2500mV
        } else if code == 2 {
            UVLOThreshold::U2600mV
        } else if code == 3 {
            UVLOThreshold::U2700mV
        } else if code == 4 {
            UVLOThreshold::U2800mV
        } else if code == 5 {
            UVLOThreshold::U2900mV
        } else if code == 6 {
            UVLOThreshold::U3000mV
        } else {
            UVLOThreshold::U3100mV
        }
    }

    pub fn code(self) -> (r: u8)
        ensures
            r == self.spec_code(),
            r < 8,
            Self::spec_from_code(r) == self,
    {
        match self {
            UVLOThreshold::U2400mV => 0,
            UVLOThreshold::U2500mV => 1,
            UVLOThreshold::U2600mV => 2,
            UVLOThreshold::U2700mV => 3,
            UVLOThreshold::U2800mV => 4,
            UVLOThreshold::U2900mV => 5,
            UVLOThreshold::U3000mV => 6,
            UVLOThreshold::U3100mV => 7,
        }
    }

    pub fn from_code(code: u8) -> (r: Self)
        requires
            code < 8,
        ensures
            r == Self::spec_from_code(code),
            r.spec_code() == code,
    {
        if code == 0 {
            UVLOThreshold::U2400mV
        } else if code == 1 {
            UVLOThreshold::U2500mV
        } else if code == 2 {
            UVLOThreshold::U2600mV
        } else if code == 3 {
            UVLOThreshold::U2700mV
        } else if code == 4 {
            UVLOThreshold::U2800mV
        } else if code == 5 {
            UVLOThreshold::U2900mV
        } else if code == 6 {
            UVLOThreshold::U3000mV
        } else {
            UVLOThreshold::U3100mV
        }
    }
}

/// Charge termination current selected in `DischargeAndTerminationCurrent`.
/// Encoded on 2 bits: every pattern of that width names a variant.
#[derive(Structural, PartialEq, Eq, Debug, Clone, Copy)]
pub enum TerminalCurrent {
    I24mA,
    I52mA,
    I80mA,
    I108mA,
}

impl TerminalCurrent {
    /// The bit pattern of this variant within its field.
    pub open spec fn spec_code(self) -> u8 {
        match self {
            TerminalCurrent::I24mA => 0,
            TerminalCurrent::I52mA => 1,
            TerminalCurrent::I80mA => 2,
            TerminalCurrent::I108mA => 3,
        }
    }

    /// The variant that a 2-bit pattern names.
    pub open spec fn spec_from_code(code: u8) -> Self {
        if code == 0 {
            TerminalCurrent::I24mA
        } else if code == 1 {
            TerminalCurrent::I52mA
        } else if code == 2 {
            TerminalCurrent::I80mA
        } else {
            TerminalCurrent::I108mA
        }
    }

    pub fn code(self) -> (r: u8)
        ensures
            r == self.spec_code(),
            r < 4,
            Self::spec_from_code(r) == self,
    {
        match self {
            TerminalCurrent::I24mA => 0,
            TerminalCurrent::I52mA => 1,
            TerminalCurrent::I80mA => 2,
            TerminalCurrent::I108mA => 3,
        }
    }

    pub fn from_code(code: u8) -> (r: Self)
        requires
            code < 4,
        ensures
            r == Self::spec_from_code(code),
            r.spec_code() == code,
    {
        if code == 0 {
            TerminalCurrent::I24mA
        } else if code == 1 {
            TerminalCurrent::I52mA
        } else if code == 2 {
            TerminalCurrent::I80mA
        } else {
            TerminalCurrent::I108mA
        }
    }
}

/// Battery recharge threshold below the regulation voltage.
/// Encoded on 1 bit: every pattern of that width names a variant.
#[derive(Structural, PartialEq, Eq, Debug, Clone, Copy)]
pub enum RechargeThreshold {
    U150mV,
    U300mV,
}

impl RechargeThreshold {
    /// The bit pattern of this variant within its field.
    pub open spec fn spec_code(self) -> u8 {
        match self {
            RechargeThreshold::U150mV => 0,
            RechargeThreshold::U300mV => 1,
        }
    }

    /// The variant that a 1-bit pattern names.
    pub open spec fn spec_from_code(code: u8) -> Self {
        if code == 0 {
            RechargeThreshold::U150mV
        } else {
            RechargeThreshold::U300mV
        }
    }

    pub fn code(self) -> (r: u8)
        ensures
            r == self.spec_code(),
            r < 2,
            Self::spec_from_code(r) == self,
    {
        match self {
            RechargeThreshold::U150mV => 0,
            RechargeThreshold::U300mV => 1,
        }
    }

    pub fn from_code(code: u8) -> (r: Self)
        requires
            code < 2,
        ensures
            r == Self::spec_from_code(code),
            r.spec_code() == code,
    {
        if code == 0 {
            RechargeThreshold::U150mV
        } else {
            RechargeThreshold::U300mV
        }
    }
}

/// Battery voltage below which the charger pre-charges.
/// Encoded on 1 bit: every pattern of that width names a variant.
#[derive(Structural, PartialEq, Eq, Debug, Clone, Copy)]
pub enum PrechargeThreshold {
    U2800mV,
    U3000mV,
}

impl PrechargeThreshold {
    /// The bit pattern of this variant within its field.
    pub open spec fn spec_code(self) -> u8 {
        match self {
            PrechargeThreshold::U2800mV => 0,
            PrechargeThreshold::U3000mV => 1,
        }
    }

    /// The variant that a 1-bit pattern names.
    pub open spec fn spec_from_code(code: u8) -> Self {
        if code == 0 {
            PrechargeThreshold::U2800mV
        } else {
            PrechargeThreshold::U3000mV
        }
    }

    pub fn code(self) -> (r: u8)
        ensures
            r == self.spec_code(),
            r < 2,
            Self::spec_from_code(r) == self,
    {
        match self {
            PrechargeThreshold::U2800mV => 0,
            PrechargeThreshold::U3000mV => 1,
        }
    }

    pub fn from_code(code: u8) -> (r: Self)
        requires
            code < 2,
        ensures
            r == Self::spec_from_code(code),
            r.spec_code() == code,
    {
        if code == 0 {
            PrechargeThreshold::U2800mV
        } else {
            PrechargeThreshold::U3000mV
        }
    }
}

/// Fast-charge safety timer period.
/// Encoded on 2 bits: every pattern of that width names a variant.
#[derive(Structural, PartialEq, Eq, Debug, Clone, Copy)]
pub enum SafetyTimerPeriod {
    P20h,
    P5h,
    P8h,
    P12h,
}

impl SafetyTimerPeriod {
    /// The bit pattern of this variant within its field.
    pub open spec fn spec_code(self) -> u8 {
        match self {
            SafetyTimerPeriod::P20h => 0,
            SafetyTimerPeriod::P5h => 1,
            SafetyTimerPeriod::P8h => 2,
            SafetyTimerPeriod::P12h => 3,
        }
    }

    /// The variant that a 2-bit pattern names.
    pub open spec fn spec_from_code(code: u8) -> Self {
        if code == 0 {
            SafetyTimerPeriod::P20h
        } else if code == 1 {
            SafetyTimerPeriod::P5h
        } else if code == 2 {
            SafetyTimerPeriod::P8h
        } else {
            SafetyTimerPeriod::P12h
        }
    }

    pub fn code(self) -> (r: u8)
        ensures
            r == self.spec_code(),
            r < 4,
            Self::spec_from_code(r) == self,
    {
        match self {
            SafetyTimerPeriod::P20h => 0,
            SafetyTimerPeriod::P5h => 1,
            SafetyTimerPeriod::P8h => 2,
            SafetyTimerPeriod::P12h => 3,
        }
    }

    pub fn from_code(code: u8) -> (r: Self)
        requires
            code < 4,
        ensures
            r == Self::spec_from_code(code),
            r.spec_code() == code,
    {
        if code == 0 {
            SafetyTimerPeriod::P20h
        } else if code == 1 {
            SafetyTimerPeriod::P5h
        } else if code == 2 {
            SafetyTimerPeriod::P8h
        } else {
            SafetyTimerPeriod::P12h
        }
    }
}

/// I2C watchdog timer limit.
/// Encoded on 2 bits: every pattern of that width names a variant.
#[derive(Structural, PartialEq, Eq, Debug, Clone, Copy)]
pub enum WatchdogTimerLimit {
    Disabled,
    L40s,
    L80s,
    L160s,
}

impl WatchdogTimerLimit {
    /// The bit pattern of this variant within its field.
    pub open spec fn spec_code(self) -> u8 {
        match self {
            WatchdogTimerLimit::Disabled => 0,
            WatchdogTimerLimit::L40s => 1,
            WatchdogTimerLimit::L80s => 2,
            WatchdogTimerLimit::L160s => 3,
        }
    }

    /// The variant that a 2-bit pattern names.
    pub open spec fn spec_from_code(code: u8) -> Self {
        if code == 0 {
            WatchdogTimerLimit::Disabled
        } else if code == 1 {
            WatchdogTimerLimit::L40s
        } else if code == 2 {
            WatchdogTimerLimit::L80s
        } else {
            WatchdogTimerLimit::L160s
        }
    }

    pub fn code(self) -> (r: u8)
        ensures
            r == self.spec_code(),
            r < 4,
            Self::spec_from_code(r) == self,
    {
        match self {
            WatchdogTimerLimit::Disabled => 0,
            WatchdogTimerLimit::L40s => 1,
            WatchdogTimerLimit::L80s => 2,
            WatchdogTimerLimit::L160s => 3,
        }
    }

    pub fn from_code(code: u8) -> (r: Self)
        requires
            code < 4,
        ensures
            r == Self::spec_from_code(code),
            r.spec_code() == code,
    {
        if code == 0 {
            WatchdogTimerLimit::Disabled
        } else if code == 1 {
            WatchdogTimerLimit::L40s
        } else if code == 2 {
            WatchdogTimerLimit::L80s
        } else {
            WatchdogTimerLimit::L160s
        }
    }
}

/// Junction temperature at which thermal regulation starts.
/// Encoded on 2 bits: every pattern of that width names a variant.
#[derive(Structural, PartialEq, Eq, Debug, Clone, Copy)]
pub enum ThermalThreshold {
    T60C,
    T80C,
    T100C,
    T120C,
}

impl ThermalThreshold {
    /// The bit pattern of this variant within its field.
    pub open spec fn spec_code(self) -> u8 {
        match self {
            ThermalThreshold::T60C => 0,
            ThermalThreshold::T80C => 1,
            ThermalThreshold::T100C => 2,
            ThermalThreshold::T120C => 3,
        }
    }

    /// The variant that a 2-bit pattern names.
    pub open spec fn spec_from_code(code: u8) -> Self {
        if code == 0 {
            ThermalThreshold::T60C
        } else if code == 1 {
            ThermalThreshold::T80C
        } else if code == 2 {
            ThermalThreshold::T100C
        } else {
            ThermalThreshold::T120C
        }
    }

    pub fn code(self) -> (r: u8)
        ensures
            r == self.spec_code(),
            r < 4,
            Self::spec_from_code(r) == self,
    {
        match self {
            ThermalThreshold::T60C => 0,
            ThermalThreshold::T80C => 1,
            ThermalThreshold::T100C => 2,
            ThermalThreshold::T120C => 3,
        }
    }

    pub fn from_code(code: u8) -> (r: Self)
        requires
            code < 4,
        ensures
            r == Self::spec_from_code(code),
            r.spec_code() == code,
    {
        if code == 0 {
            ThermalThreshold::T60C
        } else if code == 1 {
            ThermalThreshold::T80C
        } else if code == 2 {
            ThermalThreshold::T100C
        } else {
            ThermalThreshold::T120C
        }
    }
}

/// Charging state reported in `SystemStatus`.
/// Encoded on 2 bits: every pattern of that width names a variant.
#[derive(Structural, PartialEq, Eq, Debug, Clone, Copy)]
pub enum ChargeStatus {
    NotCharging,
    PreCharge,
    Charge,
    ChargeDone,
}

impl ChargeStatus {
    /// The bit pattern of this variant within its field.
    pub open spec fn spec_code(self) -> u8 {
        match self {
            ChargeStatus::NotCharging => 0,
            ChargeStatus::PreCharge => 1,
            ChargeStatus::Charge => 2,
            ChargeStatus::ChargeDone => 3,
        }
    }

    /// The variant that a 2-bit pattern names.
    pub open spec fn spec_from_code(code: u8) -> Self {
        if code == 0 {
            ChargeStatus::NotCharging
        } else if code == 1 {
            ChargeStatus::PreCharge
        } else if code == 2 {
            ChargeStatus::Charge
        } else {
            ChargeStatus::ChargeDone
        }
    }

    pub fn code(self) -> (r: u8)
        ensures
            r == self.spec_code(),
            r < 4,
            Self::spec_from_code(r) == self,
    {
        match self {
            ChargeStatus::NotCharging => 0,
            ChargeStatus::PreCharge => 1,
            ChargeStatus::Charge => 2,
            ChargeStatus::ChargeDone => 3,
        }
    }

    pub fn from_code(code: u8) -> (r: Self)
        requires
            code < 4,
        ensures
            r == Self::spec_from_code(code),
            r.spec_code() == code,
    {
        if code == 0 {
            ChargeStatus::NotCharging
        } else if code == 1 {
            ChargeStatus::PreCharge
        } else if code == 2 {
            ChargeStatus::Charge
        } else {
            ChargeStatus::ChargeDone
        }
    }
}

} // verus!
