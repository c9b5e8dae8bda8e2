use vstd::prelude::*;
use crate::config::{DeviceConfig, SensorConfig};
use crate::protocol::{write_device_config, write_sensor_config, Command, Error};
use crate::register::{Address, Register};

verus! {

/// Blocking driver: owns the bus transport and the device's bus address.
/// Its methods give the register command for each operation; the caller's
/// transport performs it.
pub struct MCP9600<DI> {
    pub iface: DI,
    pub addr: Address,
}

impl<DI> MCP9600<DI> {
    pub fn new(iface: DI, addr: Address) -> (r: Self)
        ensures
            r.iface == iface,
            r.addr == addr,
    {
        MCP9600 { iface, addr }
    }

    pub fn address(&self) -> (r: Address)
        ensures
            r == self.addr,
    {
        self.addr
    }

    /// The command that writes `config` to the sensor configuration register.
    pub fn set_sensor_config(&self, config: SensorConfig) -> (r: Command)
        ensures
            r == (Command::Write {
                register: Register::SensorConfiguration,
                data: config.spec_byte(),
            }),
    {
        write_sensor_config(&config)
    }

    /// The command that writes `config` to the device configuration register.
    pub fn set_device_config(&self, config: DeviceConfig) -> (r: Command)
        ensures
            r == (Command::Write {
                register: Register::DeviceConfiguration,
                data: config.spec_byte(),
            }),
    {
        write_device_config(&config)
    }
}

/// Suspend-capable driver: owns the bus transport and the device's bus address.
pub struct Mcp960x<TWI> {
    pub twi: TWI,
    pub address: Address,
}

impl<TWI> Mcp960x<TWI> {
    /// A driver that leaves the device's configuration as it is.
    pub fn new(twi: TWI, address: Address) -> (r: Self)
        ensures
            r.twi == twi,
            r.address == address,
    {
        Mcp960x { twi, address }
    }

    pub fn address(&self) -> (r: Address)
        ensures
            r == self.address,
    {
        self.address
    }

    /// The driver that a configuration sequence yields: one exists only when
    /// every write of the sequence succeeded, and a failure is passed on as it came.
    pub fn setup<E>(twi: TWI, address: Address, outcome: Result<(), Error<E>>) -> (r: Result<
        Self,
        Error<E>,
    >)
        ensures
            match outcome {
                Ok(_) => r matches Ok(d) && d.twi == twi && d.address == address,
                Err(e) => r == Err::<Self, Error<E>>(e),
            },
    {
        match outcome {
            Ok(_) => Ok(Mcp960x::new(twi, address)),
            Err(e) => Err(e),
        }
    }

    /// The command that writes `config` to the sensor configuration register.
    pub fn set_sensor_config(&self, config: &SensorConfig) -> (r: Command)
        ensures
            r == (Command::Write {
                register: Register::SensorConfiguration,
                data: config.spec_byte(),
            }),
    {
        write_sensor_config(config)
    }

    /// The command that writes `config` to the device configuration register.
    pub fn set_device_config(&self, config: &DeviceConfig) -> (r: Command)
        ensures
            r == (Command::Write {
                register: Register::DeviceConfiguration,
                data: config.spec_byte(),
            }),
    {
        write_device_config(config)
    }
}

} // verus!
