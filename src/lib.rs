pub mod bus;
pub mod config;
pub mod driver;
pub mod protocol;
pub mod register;
pub mod status;
pub mod temperature;

pub use config::{
    AdcResolution, BurstMode, DeviceConfig, Filter, InvalidField, Resolution, SensorConfig,
    Shutdown, Type,
};
pub use driver::{Mcp960x, MCP9600};
pub use protocol::{Burst, BurstPhase, Command, Error, ModeChange, ModePhase, Setup, SetupPhase, Step};
pub use register::{Address, Register};
pub use status::SensorRegister;
pub use temperature::Temperature;
