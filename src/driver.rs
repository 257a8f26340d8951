use vstd::prelude::*;

use crate::register::{is_read_only_address, ReadOnlyRegister, ReadWriteRegister};
use crate::registers::{
    ChargeCurrentControl, ChargeTerminationAndTimerControl, ChargeVoltageControl,
    DischargeAndTerminationCurrent, FaultFlags, InputSourceControl, MiscellaneousOperationControl,
    PowerOnConfiguration, SystemStatus,
};

verus! {

/// The chip's 7-bit address on the bus, shared by every register.
pub const DEVICE_ADDRESS: u8 = 0x09;

/// The two bus transactions the driver needs from a two-wire bus master.
///
/// Failures are reported as `Error`; the driver hands them to its caller unchanged.
pub trait Transport {
    type Error;

    /// One write transaction of `bytes` to the device at `address`.
    fn write(&mut self, address: u8, bytes: &[u8]) -> Result<(), Self::Error>;

    /// Writes `bytes` to the device at `address`, then reads into `buffer`, in one transaction.
    fn write_read(
        &mut self,
        address: u8,
        bytes: &[u8],
        buffer: &mut [u8; 1],
    ) -> Result<(), Self::Error>;
}

/// The bytes written to select register `R` before reading it.
pub fn read_request<R: ReadOnlyRegister>() -> (r: [u8; 1])
    ensures
        r@ == seq![R::spec_address()],
{
    let r = [R::address()];
    assert(r@ =~= seq![R::spec_address()]);
    r
}

/// The bytes written to store `value` in its register: the address, then the encoded value.
pub fn write_request<R: ReadWriteRegister>(value: &R) -> (r: [u8; 2])
    requires
        value.wf(),
    ensures
        r@ == seq![R::spec_address(), value.spec_to_byte()],
        !is_read_only_address(r[0]),
{
    proof {
        R::lemma_writable_address();
    }
    let r = [R::address(), value.to_byte()];
    assert(r@ =~= seq![R::spec_address(), value.spec_to_byte()]);
    r
}

/// The outcome of reading a register: the decoded byte if the transaction succeeded,
/// the transport's own error otherwise.
pub fn decode_reply<R: ReadOnlyRegister, E>(outcome: Result<(), E>, byte: u8) -> (r: Result<R, E>)
    ensures
        match outcome {
            Ok(_) => r == Ok::<R, E>(R::spec_from_byte(byte)),
            Err(e) => r == Err::<R, E>(e),
        },
        r is Ok ==> r->Ok_0.wf(),
{
    match outcome {
        Ok(_) => Ok(R::from_byte(byte)),
        Err(e) => Err(e),
    }
}

/// Driver for the MP2667 battery charger, owning its bus for its lifetime.
#[derive(Debug)]
pub struct MP2667<I2C> {
    i2c: I2C,
}

impl<I2C> MP2667<I2C> {
    /// The bus the driver owns.
    pub closed spec fn bus(&self) -> I2C {
        self.i2c
    }

    /// Takes ownership of the bus; no transaction is made.
    pub fn new(i2c: I2C) -> (r: Self)
        ensures
            r.bus() == i2c,
    {
        MP2667 { i2c }
    }

    /// Ends the driver and hands its bus back.
    pub fn release(self) -> (r: I2C)
        ensures
            r == self.bus(),
    {
        self.i2c
    }
}

impl<I2C: Transport> MP2667<I2C> {
    /// Reads register `R`: one write-then-read of its address and one byte.
    pub fn read_register<R: ReadOnlyRegister>(&mut self) -> (r: Result<R, I2C::Error>)
        ensures
            r is Ok ==> r->Ok_0.wf(),
    {
        let request = read_request::<R>();
        let mut buffer: [u8; 1] = [0u8];
        let outcome = self.i2c.write_read(DEVICE_ADDRESS, &request, &mut buffer);
        decode_reply::<R, I2C::Error>(outcome, buffer[0])
    }

    /// Writes `value` to its register: one write of the address and the encoded byte.
    pub fn write_register<R: ReadWriteRegister>(&mut self, value: R) -> (r: Result<(), I2C::Error>)
        requires
            value.wf(),
    {
        let request = write_request(&value);
        self.i2c.write(DEVICE_ADDRESS, &request)
    }

    /// Gets the charger input source config.
    pub fn get_input_source(&mut self) -> (r: Result<InputSourceControl, I2C::Error>)
        ensures
            r is Ok ==> r->Ok_0.wf(),
    {
        self.read_register::<InputSourceControl>()
    }

    /// Sets the charger input source config.
    pub fn set_input_source(&mut self, ctrl: InputSourceControl) -> (r: Result<(), I2C::Error>)
        requires
            ctrl.wf(),
    {
        self.write_register(ctrl)
    }

    /// Gets the charger power-on config.
    pub fn get_power_on_config(&mut self) -> (r: Result<PowerOnConfiguration, I2C::Error>)
        ensures
            r is Ok ==> r->Ok_0.wf(),
    {
        self.read_register::<PowerOnConfiguration>()
    }

    /// Sets the charger power-on config.
    pub fn set_power_on_config(&mut self, cfg: PowerOnConfiguration) -> (r: Result<(), I2C::Error>)
        requires
            cfg.wf(),
    {
        self.write_register(cfg)
    }

    /// Gets the charge current control.
    pub fn get_charge_current_control(&mut self) -> (r: Result<ChargeCurrentControl, I2C::Error>)
        ensures
            r is Ok ==> r->Ok_0.wf(),
    {
        self.read_register::<ChargeCurrentControl>()
    }

    /// Sets the charge current control.
    pub fn set_charge_current_control(
        &mut self,
        cfg: ChargeCurrentControl,
    ) -> (r: Result<(), I2C::Error>)
        requires
            cfg.wf(),
    {
        self.write_register(cfg)
    }

    /// Gets the discharge and termination current.
    pub fn get_discharge_and_termination_current(
        &mut self,
    ) -> (r: Result<DischargeAndTerminationCurrent, I2C::Error>)
        ensures
            r is Ok ==> r->Ok_0.wf(),
    {
        self.read_register::<DischargeAndTerminationCurrent>()
    }

    /// Sets the discharge and termination current.
    pub fn set_discharge_and_termination_current(
        &mut self,
        cfg: DischargeAndTerminationCurrent,
    ) -> (r: Result<(), I2C::Error>)
        requires
            cfg.wf(),
    {
        self.write_register(cfg)
    }

    /// Gets the charge voltage control.
    pub fn get_charge_voltage_control(&mut self) -> (r: Result<ChargeVoltageControl, I2C::Error>)
        ensures
            r is Ok ==> r->Ok_0.wf(),
    {
        self.read_register::<ChargeVoltageControl>()
    }

    /// Sets the charge voltage control.
    pub fn set_charge_voltage_control(
        &mut self,
        cfg: ChargeVoltageControl,
    ) -> (r: Result<(), I2C::Error>)
        requires
            cfg.wf(),
    {
        self.write_register(cfg)
    }

    /// Gets the charge termination and timer control.
    pub fn get_charge_termination_and_timer_control(
        &mut self,
    ) -> (r: Result<ChargeTerminationAndTimerControl, I2C::Error>)
        ensures
            r is Ok ==> r->Ok_0.wf(),
    {
        self.read_register::<ChargeTerminationAndTimerControl>()
    }

    /// Sets the charge termination and timer control.
    pub fn set_charge_termination_and_timer_control(
        &mut self,
        cfg: ChargeTerminationAndTimerControl,
    ) -> (r: Result<(), I2C::Error>)
        requires
            cfg.wf(),
    {
        self.write_register(cfg)
    }

    /// Gets the miscellaneous operation control.
    pub fn get_miscellaneous_operation_control(
        &mut self,
    ) -> (r: Result<MiscellaneousOperationControl, I2C::Error>)
        ensures
            r is Ok ==> r->Ok_0.wf(),
    {
        self.read_register::<MiscellaneousOperationControl>()
    }

    /// Sets the miscellaneous operation control.
    pub fn set_miscellaneous_operation_control(
        &mut self,
        cfg: MiscellaneousOperationControl,
    ) -> (r: Result<(), I2C::Error>)
        requires
            cfg.wf(),
    {
        self.write_register(cfg)
    }

    /// Gets the charger status.
    pub fn get_status(&mut self) -> (r: Result<SystemStatus, I2C::Error>)
        ensures
            r is Ok ==> r->Ok_0.wf(),
    {
        self.read_register::<SystemStatus>()
    }

    /// Gets the charger fault flags.
    pub fn get_faults(&mut self) -> (r: Result<FaultFlags, I2C::Error>)
        ensures
            r is Ok ==> r->Ok_0.wf(),
    {
        self.read_register::<FaultFlags>()
    }
}

} // verus!
