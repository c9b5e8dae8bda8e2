use mcp960x::bus::{pointer_frame, word_from_be_bytes, write_frame};
use mcp960x::protocol::{
    device_config_from_reply, sensor_config_from_reply, status_from_reply, temperature_from_reply,
    BURST_POLL_INTERVAL_MS,
};
use mcp960x::{
    Address, Burst, Command, DeviceConfig, Error, Filter, MCP9600, Mcp960x, ModeChange, Register,
    SensorConfig, SensorRegister, Setup, Shutdown, Step, Temperature, Type,
};

#[derive(Debug, PartialEq)]
enum Wire {
    Write(u8, Vec<u8>),
    Read(u8, usize),
    Delay(u32),
}

/// A bus that records every transaction and answers reads from fixed register contents.
struct MockBus {
    address: u8,
    log: Vec<Wire>,
    registers: [[u8; 2]; 64],
    statuses: Vec<u8>,
    writes: usize,
    fail_write: Option<(usize, u8)>,
}

impl MockBus {
    fn new() -> Self {
        MockBus {
            address: Address::Addr0.value(),
            log: Vec::new(),
            registers: [[0; 2]; 64],
            statuses: Vec::new(),
            writes: 0,
            fail_write: None,
        }
    }

    fn read(&mut self, register: Register, len: usize) -> Vec<u8> {
        self.log.push(Wire::Write(self.address, pointer_frame(register).to_vec()));
        self.log.push(Wire::Read(self.address, len));
        if register == Register::Status && !self.statuses.is_empty() {
            return vec![self.statuses.remove(0)];
        }
        self.registers[register.index() as usize][..len].to_vec()
    }

    fn perform(&mut self, command: Command) -> Result<u16, u8> {
        match command {
            Command::Write { register, data } => {
                self.writes += 1;
                if let Some((n, e)) = self.fail_write {
                    if n == self.writes {
                        return Err(e);
                    }
                }
                self.log.push(Wire::Write(self.address, write_frame(register, data).to_vec()));
                self.registers[register.index() as usize][0] = data;
                Ok(0)
            }
            Command::ReadWord { register } => {
                let b = self.read(register, 2);
                Ok(word_from_be_bytes([b[0], b[1]]))
            }
            Command::ReadByte { register } => Ok(self.read(register, 1)[0] as u16),
            Command::Delay { ms } => {
                self.log.push(Wire::Delay(ms));
                Ok(0)
            }
        }
    }
}

fn drive<T>(
    bus: &mut MockBus,
    first: Command,
    mut step: impl FnMut(Result<u16, u8>) -> Step<T, u8>,
) -> Result<T, Error<u8>> {
    let mut command = first;
    loop {
        match step(bus.perform(command)) {
            Step::Issue(c) => command = c,
            Step::Finished(r) => return r,
        }
    }
}

#[test]
fn read_selects_register_before_reading_it() {
    let mut bus = MockBus::new();
    bus.registers[Register::DeviceConfiguration.index() as usize] = [0b0_10_011_00, 0];
    let (mut change, first) = ModeChange::begin(Shutdown::Shutdown);
    let r = drive(&mut bus, first, |e| change.step(e));
    assert_eq!(r, Ok(()));
    assert_eq!(
        bus.log,
        vec![
            Wire::Write(0x66, vec![0x06]),
            Wire::Read(0x66, 1),
            Wire::Write(0x66, vec![0x06, 0b0_10_011_01]),
        ]
    );
}

#[test]
fn burst_waits_twice_then_reads_temperature() {
    let mut bus = MockBus::new();
    bus.statuses = vec![0x00, 0x00, 0x80];
    bus.registers[Register::HotJunctionTemp.index() as usize] = [0x01, 0x90];
    let config = DeviceConfig::default();
    let (mut burst, first) = Burst::begin(DeviceConfig { shutdown: Shutdown::Normal, ..config });
    let r = drive(&mut bus, first, |e| burst.step(e));
    assert_eq!(r, Ok(Temperature::from_bits(400)));
    let delays = bus.log.iter().filter(|w| matches!(w, Wire::Delay(_))).count();
    assert_eq!(delays, 2);
    assert_eq!(bus.log[0], Wire::Write(0x66, vec![0x06, config.as_byte()]));
    assert_eq!(bus.log.iter().filter(|w| **w == Wire::Delay(BURST_POLL_INTERVAL_MS)).count(), 2);
    assert_eq!(bus.log[bus.log.len() - 2], Wire::Write(0x66, vec![0x00]));
    assert_eq!(bus.log[bus.log.len() - 1], Wire::Read(0x66, 2));
}

#[test]
fn burst_stops_on_transport_error() {
    let mut bus = MockBus::new();
    bus.fail_write = Some((1, 9));
    let (mut burst, first) = Burst::begin(DeviceConfig::default());
    let r = drive(&mut bus, first, |e| burst.step(e));
    assert_eq!(r, Err(Error::Comm(9)));
    assert!(bus.log.is_empty());
}

#[test]
fn setup_fails_on_second_write() {
    let mut bus = MockBus::new();
    bus.fail_write = Some((2, 7));
    let device = DeviceConfig::default();
    let sensor = SensorConfig::new(Type::J, Filter::N2);
    let (mut setup, first) = Setup::begin(device, sensor);
    let outcome = drive(&mut bus, first, |e| setup.step(e));
    assert_eq!(outcome, Err(Error::Comm(7)));
    let driver = Mcp960x::setup((), Address::Addr0, outcome);
    assert!(matches!(driver, Err(Error::Comm(7))));
    assert_eq!(bus.log, vec![Wire::Write(0x66, vec![0x06, device.as_byte()])]);
}

#[test]
fn setup_writes_device_then_sensor_config() {
    let mut bus = MockBus::new();
    let device = DeviceConfig::default();
    let sensor = SensorConfig::new(Type::J, Filter::N2);
    let (mut setup, first) = Setup::begin(device, sensor);
    let outcome = drive(&mut bus, first, |e| setup.step(e));
    assert_eq!(outcome, Ok(()));
    assert_eq!(
        bus.log,
        vec![
            Wire::Write(0x66, vec![0x06, device.as_byte()]),
            Wire::Write(0x66, vec![0x05, 0x12]),
        ]
    );
    let driver = Mcp960x::setup(5u32, Address::Addr1, outcome).unwrap();
    assert_eq!(driver.address(), Address::Addr1);
    assert_eq!(driver.twi, 5);
}

#[test]
fn mode_change_refuses_invalid_config_byte() {
    let mut bus = MockBus::new();
    bus.registers[Register::DeviceConfiguration.index() as usize] = [0b0000_0011, 0];
    let (mut change, first) = ModeChange::begin(Shutdown::Normal);
    let r = drive(&mut bus, first, |e| change.step(e));
    assert_eq!(r, Err(Error::InvalidField));
    assert_eq!(bus.log.len(), 2);
}

#[test]
fn single_register_replies() {
    assert_eq!(temperature_from_reply::<u8>(Ok(0x0190)), Ok(Temperature::from_bits(400)));
    assert_eq!(temperature_from_reply::<u8>(Err(3)), Err(Error::Comm(3)));
    assert_eq!(device_config_from_reply::<u8>(Ok(0x03)), Err(Error::InvalidField));
    assert_eq!(device_config_from_reply::<u8>(Err(4)), Err(Error::Comm(4)));
    assert_eq!(device_config_from_reply::<u8>(Ok(0x4e)), Ok(DeviceConfig::default()));
    assert_eq!(sensor_config_from_reply::<u8>(Ok(0x03)), Ok(SensorConfig::default()));
    assert_eq!(status_from_reply::<u8>(Ok(0x80)), Ok(SensorRegister::new(0x80)));
    assert_eq!(status_from_reply::<u8>(Err(1)), Err(Error::Comm(1)));
}

#[test]
fn blocking_driver_commands() {
    let d = MCP9600::new((), Address::Addr1);
    assert_eq!(d.address(), Address::Addr1);
    assert_eq!(
        d.set_sensor_config(SensorConfig::new(Type::K, Filter::N3)),
        Command::Write { register: Register::SensorConfiguration, data: 0x03 }
    );
    assert_eq!(
        d.set_device_config(DeviceConfig::default()),
        Command::Write { register: Register::DeviceConfiguration, data: 0x4e }
    );
    let a = Mcp960x::new((), Address::Addr0);
    assert_eq!(
        a.set_device_config(&DeviceConfig::default()),
        Command::Write { register: Register::DeviceConfiguration, data: 0x4e }
    );
}
