use vstd::prelude::*;
use crate::config::{DeviceConfig, InvalidField, SensorConfig, Shutdown};
use crate::register::Register;
use crate::status::{bit_of, SensorRegister};
use crate::temperature::Temperature;

verus! {

/// Pause between two reads of the status register while a burst runs, in milliseconds.
pub const BURST_POLL_INTERVAL_MS: u32 = 150;

/// Failure of a driver operation.
#[derive(Debug, PartialEq, Eq)]
pub enum Error<E> {
    /// The transport failed; its error is kept as it came.
    Comm(E),
    /// A configuration byte read from the device names no variant of one of its fields.
    InvalidField,
}

/// One register-level request to the transport, or a pause.
#[derive(Debug, Clone, Copy, PartialEq, Eq, Structural)]
pub enum Command {
    /// Write the register pointer and one data byte in one transaction.
    Write { register: Register, data: u8 },
    /// Write the register pointer, then read two bytes, most significant first.
    ReadWord { register: Register },
    /// Write the register pointer, then read one byte.
    ReadByte { register: Register },
    /// Wait before the next request.
    Delay { ms: u32 },
}

/// What a multi-step operation asks for next.
#[derive(Debug, PartialEq, Eq)]
pub enum Step<T, E> {
    /// Perform this command and report how it went.
    Issue(Command),
    /// The operation is over.
    Finished(Result<T, Error<E>>),
}

/// The low byte of a reply, which is what a one-byte read returns.
pub open spec fn low_byte(v: u16) -> u8 {
    (v % 256) as u8
}

fn reply_byte(v: u16) -> (r: u8)
    ensures
        r == low_byte(v),
{
    (v % 256) as u8
}

/// The command that writes a sensor configuration.
pub fn write_sensor_config(config: &SensorConfig) -> (r: Command)
    ensures
        r == (Command::Write { register: Register::SensorConfiguration, data: config.spec_byte() }),
{
    Command::Write { register: Register::SensorConfiguration, data: config.as_byte() }
}

/// The command that writes a device configuration.
pub fn write_device_config(config: &DeviceConfig) -> (r: Command)
    ensures
        r == (Command::Write { register: Register::DeviceConfiguration, data: config.spec_byte() }),
{
    Command::Write { register: Register::DeviceConfiguration, data: config.as_byte() }
}

/// Result of reading a temperature register.
pub fn temperature_from_reply<E>(reply: Result<u16, E>) -> (r: Result<Temperature, Error<E>>)
    ensures
        match reply {
            Ok(v) => r == Ok::<Temperature, Error<E>>(Temperature::spec_from_register(v)),
            Err(e) => r == Err::<Temperature, Error<E>>(Error::Comm(e)),
        },
{
    match reply {
        Ok(v) => Ok(Temperature::from_register(v)),
        Err(e) => Err(Error::Comm(e)),
    }
}

/// Result of reading the sensor configuration register.
pub fn sensor_config_from_reply<E>(reply: Result<u8, E>) -> (r: Result<SensorConfig, Error<E>>)
    ensures
        match reply {
            Ok(b) => r == Ok::<SensorConfig, Error<E>>(SensorConfig::spec_decode(b)),
            Err(e) => r == Err::<SensorConfig, Error<E>>(Error::Comm(e)),
        },
{
    match reply {
        Ok(b) => Ok(SensorConfig::from_byte(b)),
        Err(e) => Err(Error::Comm(e)),
    }
}

/// Result of reading the device configuration register; a byte that does not
/// decode gives `InvalidField`.
pub fn device_config_from_reply<E>(reply: Result<u8, E>) -> (r: Result<DeviceConfig, Error<E>>)
    ensures
        match reply {
            Ok(b) => match DeviceConfig::spec_decode(b) {
                Ok(c) => r == Ok::<DeviceConfig, Error<E>>(c),
                Err(_) => r == Err::<DeviceConfig, Error<E>>(Error::InvalidField),
            },
            Err(e) => r == Err::<DeviceConfig, Error<E>>(Error::Comm(e)),
        },
{
    match reply {
        Ok(b) => match DeviceConfig::from_byte(b) {
            Ok(c) => Ok(c),
            Err(InvalidField) => Err(Error::InvalidField),
        },
        Err(e) => Err(Error::Comm(e)),
    }
}

/// Result of reading the status register.
pub fn status_from_reply<E>(reply: Result<u8, E>) -> (r: Result<SensorRegister, Error<E>>)
    ensures
        match reply {
            Ok(b) => r == Ok::<SensorRegister, Error<E>>(SensorRegister { bits: b }),
            Err(e) => r == Err::<SensorRegister, Error<E>>(Error::Comm(e)),
        },
{
    match reply {
        Ok(b) => Ok(SensorRegister::new(b)),
        Err(e) => Err(Error::Comm(e)),
    }
}

/// Where a configuration sequence stands: device configuration first, then sensor configuration.
#[derive(Debug, Clone, Copy, PartialEq, Eq, Structural)]
pub enum SetupPhase {
    DeviceSent,
    SensorSent,
    Done,
}

/// Writes both configuration registers, device configuration first, and
/// stops at the first transport failure without undoing what was written.
#[derive(Debug, Clone, Copy, PartialEq, Eq, Structural)]
pub struct Setup {
    pub device: DeviceConfig,
    pub sensor: SensorConfig,
    pub phase: SetupPhase,
}

impl Setup {
    pub open spec fn spec_begin(device: DeviceConfig, sensor: SensorConfig) -> (Setup, Command) {
        (
            Setup { device, sensor, phase: SetupPhase::DeviceSent },
            Command::Write { register: Register::DeviceConfiguration, data: device.spec_byte() },
        )
    }

    /// Next state and step once the last command has been performed with the outcome `event`.
    pub open spec fn spec_step<E>(self, event: Result<u16, E>) -> (Setup, Step<(), E>) {
        let done = Setup { phase: SetupPhase::Done, ..self };
        match event {
            Err(e) => (done, Step::Finished(Err(Error::Comm(e)))),
            Ok(_) => match self.phase {
                SetupPhase::DeviceSent => (
                    Setup { phase: SetupPhase::SensorSent, ..self },
                    Step::Issue(
                        Command::Write {
                            register: Register::SensorConfiguration,
                            data: self.sensor.spec_byte(),
                        },
                    ),
                ),
                _ => (done, Step::Finished(Ok(()))),
            },
        }
    }

    /// Starts the sequence: returns the state and the first command.
    pub fn begin(device: DeviceConfig, sensor: SensorConfig) -> (r: (Setup, Command))
        ensures
            r == Self::spec_begin(device, sensor),
    {
        (
            Setup { device, sensor, phase: SetupPhase::DeviceSent },
            write_device_config(&device),
        )
    }

    pub fn step<E>(&mut self, event: Result<u16, E>) -> (r: Step<(), E>)
        requires
            old(self).phase != SetupPhase::Done,
        ensures
            (*final(self), r) == old(self).spec_step(event),
    {
        match event {
            Err(e) => {
                self.phase = SetupPhase::Done;
                Step::Finished(Err(Error::Comm(e)))
            },
            Ok(_) => match self.phase {
                SetupPhase::DeviceSent => {
                    self.phase = SetupPhase::SensorSent;
                    Step::Issue(write_sensor_config(&self.sensor))
                },
                _ => {
                    self.phase = SetupPhase::Done;
                    Step::Finished(Ok(()))
                },
            },
        }
    }
}

/// Where a change of operating mode stands.
#[derive(Debug, Clone, Copy, PartialEq, Eq, Structural)]
pub enum ModePhase {
    Reading,
    Writing,
    Done,
}

/// Read-modify-write of the device configuration that replaces only its shutdown field.
#[derive(Debug, Clone, Copy, PartialEq, Eq, Structural)]
pub struct ModeChange {
    pub mode: Shutdown,
    pub phase: ModePhase,
}

impl ModeChange {
    pub open spec fn spec_begin(mode: Shutdown) -> (ModeChange, Command) {
        (
            ModeChange { mode, phase: ModePhase::Reading },
            Command::ReadByte { register: Register::DeviceConfiguration },
        )
    }

    /// Next state and step once the last command has been performed with the outcome `event`.
    pub open spec fn spec_step<E>(self, event: Result<u16, E>) -> (ModeChange, Step<(), E>) {
        let done = ModeChange { phase: ModePhase::Done, ..self };
        match event {
            Err(e) => (done, Step::Finished(Err(Error::Comm(e)))),
            Ok(v) => match self.phase {
                ModePhase::Reading => match DeviceConfig::spec_decode(low_byte(v)) {
                    Ok(c) => (
                        ModeChange { phase: ModePhase::Writing, ..self },
                        Step::Issue(
                            Command::Write {
                                register: Register::DeviceConfiguration,
                                data: DeviceConfig { shutdown: self.mode, ..c }.spec_byte(),
                            },
                        ),
                    ),
                    Err(_) => (done, Step::Finished(Err(Error::InvalidField))),
                },
                _ => (done, Step::Finished(Ok(()))),
            },
        }
    }

    pub fn begin(mode: Shutdown) -> (r: (ModeChange, Command))
        ensures
            r == Self::spec_begin(mode),
    {
        (
            ModeChange { mode, phase: ModePhase::Reading },
            Command::ReadByte { register: Register::DeviceConfiguration },
        )
    }

    pub fn step<E>(&mut self, event: Result<u16, E>) -> (r: Step<(), E>)
        requires
            old(self).phase != ModePhase::Done,
        ensures
            (*final(self), r) == old(self).spec_step(event),
    {
        match event {
            Err(e) => {
                self.phase = ModePhase::Done;
                Step::Finished(Err(Error::Comm(e)))
            },
            Ok(v) => match self.phase {
                ModePhase::Reading => match DeviceConfig::from_byte(reply_byte(v)) {
                    Ok(c) => {
                        self.phase = ModePhase::Writing;
                        let config = DeviceConfig { shutdown: self.mode, ..c };
                        Step::Issue(write_device_config(&config))
                    },
                    Err(_) => {
                        self.phase = ModePhase::Done;
                        Step::Finished(Err(Error::InvalidField))
                    },
                },
                _ => {
                    self.phase = ModePhase::Done;
                    Step::Finished(Ok(()))
                },
            },
        }
    }
}

/// Where a burst acquisition stands.
#[derive(Debug, Clone, Copy, PartialEq, Eq, Structural)]
pub enum BurstPhase {
    /// The configuration that starts the burst has been sent.
    Triggered,
    /// The status register has been asked for.
    Polling,
    /// A pause before the next status read is under way.
    Waiting,
    /// The hot-junction temperature has been asked for.
    Reading,
    Done,
}

/// Burst acquisition: start a burst, poll the status register with a pause
/// between reads until the burst-complete flag is set, then read the
/// hot-junction temperature. There is no bound on the number of polls.
#[derive(Debug, Clone, Copy, PartialEq, Eq, Structural)]
pub struct Burst {
    pub phase: BurstPhase,
}

impl Burst {
    /// The configuration written to start a burst: `config` with its shutdown field set to burst.
    pub open spec fn trigger_config(config: DeviceConfig) -> DeviceConfig {
        DeviceConfig { shutdown: Shutdown::Burst, ..config }
    }

    pub open spec fn spec_begin(config: DeviceConfig) -> (Burst, Command) {
        (
            Burst { phase: BurstPhase::Triggered },
            Command::Write {
                register: Register::DeviceConfiguration,
                data: Self::trigger_config(config).spec_byte(),
            },
        )
    }

    /// Next state and step once the last command has been performed with the outcome `event`.
    pub open spec fn spec_step<E>(self, event: Result<u16, E>) -> (Burst, Step<Temperature, E>) {
        let poll = Step::Issue(Command::ReadByte { register: Register::Status });
        match event {
            Err(e) => (Burst { phase: BurstPhase::Done }, Step::Finished(Err(Error::Comm(e)))),
            Ok(v) => match self.phase {
                BurstPhase::Polling => if bit_of(low_byte(v), 7) == 1 {
                    (
                        Burst { phase: BurstPhase::Reading },
                        Step::Issue(Command::ReadWord { register: Register::HotJunctionTemp }),
                    )
                } else {
                    (
                        Burst { phase: BurstPhase::Waiting },
                        Step::Issue(Command::Delay { ms: BURST_POLL_INTERVAL_MS }),
                    )
                },
                BurstPhase::Reading => (
                    Burst { phase: BurstPhase::Done },
                    Step::Finished(Ok(Temperature::spec_from_register(v))),
                ),
                _ => (Burst { phase: BurstPhase::Polling }, poll),
            },
        }
    }

    /// Starts a burst with the settings of `config`: returns the state and the first command.
    pub fn begin(config: DeviceConfig) -> (r: (Burst, Command))
        ensures
            r == Self::spec_begin(config),
    {
        let trigger = DeviceConfig { shutdown: Shutdown::Burst, ..config };
        (Burst { phase: BurstPhase::Triggered }, write_device_config(&trigger))
    }

    pub fn step<E>(&mut self, event: Result<u16, E>) -> (r: Step<Temperature, E>)
        requires
            old(self).phase != BurstPhase::Done,
        ensures
            (*final(self), r) == old(self).spec_step(event),
    {
        match event {
            Err(e) => {
                self.phase = BurstPhase::Done;
                Step::Finished(Err(Error::Comm(e)))
            },
            Ok(v) => match self.phase {
                BurstPhase::Polling => {
                    let status = SensorRegister::new(reply_byte(v));
                    if status.burst_complete() == 1 {
                        self.phase = BurstPhase::Reading;
                        Step::Issue(Command::ReadWord { register: Register::HotJunctionTemp })
                    } else {
                        self.phase = BurstPhase::Waiting;
                        Step::Issue(Command::Delay { ms: BURST_POLL_INTERVAL_MS })
                    }
                },
                BurstPhase::Reading => {
                    self.phase = BurstPhase::Done;
                    Step::Finished(Ok(Temperature::from_register(v)))
                },
                _ => {
                    self.phase = BurstPhase::Polling;
                    Step::Issue(Command::ReadByte { register: Register::Status })
                },
            },
        }
    }
}

/// The configuration sequence writes the device configuration and then the
/// sensor configuration; when the second write fails with `e`, the sequence
/// ends with exactly `Error::Comm(e)` and yields no driver.
pub proof fn lemma_setup_fails_on_second_write<E>(
    device: DeviceConfig,
    sensor: SensorConfig,
    first: u16,
    e: E,
)
    ensures
        ({
            let (s0, c0) = Setup::spec_begin(device, sensor);
            let (s1, step1) = s0.spec_step(Ok::<u16, E>(first));
            let (s2, step2) = s1.spec_step(Err::<u16, E>(e));
            &&& c0 == (Command::Write {
                register: Register::DeviceConfiguration,
                data: device.spec_byte(),
            })
            &&& step1 == Step::<(), E>::Issue(
                Command::Write { register: Register::SensorConfiguration, data: sensor.spec_byte() },
            )
            &&& step2 == Step::<(), E>::Finished(Err(Error::Comm(e)))
            &&& s2.phase == SetupPhase::Done
        }),
{
}

/// While polling, a status byte with the burst-complete flag clear is followed
/// by one pause and then another status read; one with the flag set is
/// followed by the hot-junction read, whose value is the result.
pub proof fn lemma_burst_poll<E>(status: u16, next: u16, word: u16)
    ensures
        ({
            let polling = Burst { phase: BurstPhase::Polling };
            let (b1, step1) = polling.spec_step(Ok::<u16, E>(status));
            let (b2, step2) = b1.spec_step(Ok::<u16, E>(next));
            if bit_of(low_byte(status), 7) == 0 {
                &&& step1 == Step::<Temperature, E>::Issue(
                    Command::Delay { ms: BURST_POLL_INTERVAL_MS },
                )
                &&& step2 == Step::<Temperature, E>::Issue(
                    Command::ReadByte { register: Register::Status },
                )
                &&& b2 == polling
            } else {
                &&& step1 == Step::<Temperature, E>::Issue(
                    Command::ReadWord { register: Register::HotJunctionTemp },
                )
                &&& step2 == Step::<Temperature, E>::Finished(
                    Ok(Temperature::spec_from_register(next)),
                )
                &&& b2.phase == BurstPhase::Done
            }
        }),
{
    assert((low_byte(status) >> 7u8) & 1 <= 1) by (bit_vector);
}

/// The steps that a burst acquisition takes in state `b` when the commands
/// it asks for come back with `events`, in order.
pub open spec fn burst_run<E>(b: Burst, events: Seq<Result<u16, E>>) -> Seq<Step<Temperature, E>>
    decreases events.len(),
{
    if events.len() == 0 {
        Seq::empty()
    } else {
        let (next, step) = b.spec_step(events[0]);
        seq![step] + burst_run(next, events.drop_first())
    }
}

/// How many of `steps` are pauses.
pub open spec fn pause_count<E>(steps: Seq<Step<Temperature, E>>) -> nat
    decreases steps.len(),
{
    if steps.len() == 0 {
        0
    } else {
        (if steps[0] is Issue && steps[0]->Issue_0 is Delay {
            1nat
        } else {
            0nat
        }) + pause_count(steps.drop_first())
    }
}

/// The replies to polling: each status byte in `statuses`, then the end of the pause after it.
pub open spec fn poll_replies<E>(statuses: Seq<u16>) -> Seq<Result<u16, E>>
    decreases statuses.len(),
{
    if statuses.len() == 0 {
        Seq::empty()
    } else {
        seq![Ok(statuses[0]), Ok(0u16)] + poll_replies(statuses.drop_first())
    }
}

/// While polling, each status read whose burst-complete flag is clear brings
/// exactly one pause; the first status read with the flag set ends polling,
/// and the burst returns the hot-junction temperature read after it.
pub proof fn lemma_burst_polls_until_complete<E>(statuses: Seq<u16>, done: u16, word: u16)
    requires
        forall|i: int| 0 <= i < statuses.len() ==> bit_of(low_byte(#[trigger] statuses[i]), 7) == 0,
        bit_of(low_byte(done), 7) == 1,
    ensures
        ({
            let steps = burst_run(
                Burst { phase: BurstPhase::Polling },
                poll_replies::<E>(statuses) + seq![Ok::<u16, E>(done), Ok::<u16, E>(word)],
            );
            &&& steps.len() == 2 * statuses.len() + 2
            &&& pause_count(steps) == statuses.len()
            &&& steps.last() == Step::<Temperature, E>::Finished(
                Ok(Temperature::spec_from_register(word)),
            )
        }),
    decreases statuses.len(),
{
    let polling = Burst { phase: BurstPhase::Polling };
    let tail = seq![Ok::<u16, E>(done), Ok::<u16, E>(word)];
    let events = poll_replies::<E>(statuses) + tail;
    if statuses.len() == 0 {
        assert(poll_replies::<E>(statuses) =~= Seq::empty());
        assert(events =~= tail);
        let e1 = events.drop_first();
        let e2 = e1.drop_first();
        assert(e1 =~= seq![Ok::<u16, E>(word)]);
        assert(e2 =~= Seq::<Result<u16, E>>::empty());
        let fin = Step::<Temperature, E>::Finished(Ok(Temperature::spec_from_register(word)));
        let s3 = burst_run(Burst { phase: BurstPhase::Done }, e2);
        assert(s3 =~= Seq::<Step<Temperature, E>>::empty());
        let s2 = burst_run(Burst { phase: BurstPhase::Reading }, e1);
        assert(s2 =~= seq![fin] + s3);
        assert(s2 =~= seq![fin]);
        let steps = burst_run(polling, events);
        assert(steps =~= seq![Step::<Temperature, E>::Issue(Command::ReadWord { register: Register::HotJunctionTemp })] + s2);
        assert(steps.drop_first() =~= s2);
        assert(s2.drop_first() =~= s3);
        assert(pause_count(s3) == 0);
        assert(pause_count(s2) == 0);
        assert(pause_count(steps) == 0);
    } else {
        let rest = statuses.drop_first();
        assert forall|i: int| 0 <= i < rest.len() implies bit_of(low_byte(#[trigger] rest[i]), 7) == 0 by {
            assert(rest[i] == statuses[i + 1]);
        }
        lemma_burst_polls_until_complete::<E>(rest, done, word);
        let inner = poll_replies::<E>(rest) + tail;
        assert(poll_replies::<E>(statuses) =~= seq![Ok(statuses[0]), Ok(0u16)] + poll_replies::<E>(rest));
        assert(events =~= seq![Ok(statuses[0]), Ok(0u16)] + inner);
        assert(events.drop_first() =~= seq![Ok(0u16)] + inner);
        assert(events.drop_first().drop_first() =~= inner);
        let waiting = Burst { phase: BurstPhase::Waiting };
        let inner_steps = burst_run(polling, inner);
        let s1 = burst_run(waiting, events.drop_first());
        assert(s1 =~= seq![Step::<Temperature, E>::Issue(Command::ReadByte { register: Register::Status })] + inner_steps);
        let steps = burst_run(polling, events);
        assert(steps =~= seq![Step::<Temperature, E>::Issue(Command::Delay { ms: BURST_POLL_INTERVAL_MS })] + s1);
        assert(steps.drop_first() =~= s1);
        assert(s1.drop_first() =~= inner_steps);
        assert(pause_count(s1) == pause_count(inner_steps));
        assert(pause_count(steps) == 1 + pause_count(s1));
        assert(steps.last() == inner_steps.last());
    }
}

} // verus!
