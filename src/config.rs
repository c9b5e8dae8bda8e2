use vstd::prelude::*;

verus! {

/// A configuration byte read back from the device holds a bit pattern that
/// names no variant of one of its fields.
#[derive(Debug, Clone, Copy, PartialEq, Eq, Structural)]
pub struct InvalidField;

/// Cold-junction resolution.
#[derive(Debug, Clone, Copy, PartialEq, Eq, Structural)]
pub enum Resolution {
    High,
    Low,
}

impl Resolution {
    pub open spec fn spec_bits(self) -> u8 {
        match self {
            Resolution::High => 0,
            Resolution::Low => 1,
        }
    }

    /// The variant for the low bit of `b`.
    pub open spec fn spec_from_bits(b: u8) -> Resolution {
        if b & 1 == 0 {
            Resolution::High
        } else {
            Resolution::Low
        }
    }

    pub fn bits(self) -> (r: u8)
        ensures
            r == self.spec_bits(),
    {
        match self {
            Resolution::High => 0,
            Resolution::Low => 1,
        }
    }

    pub fn from_bits(b: u8) -> (r: Resolution)
        ensures
            r == Self::spec_from_bits(b),
    {
        if b & 1 == 0 {
            Resolution::High
        } else {
            Resolution::Low
        }
    }
}

/// ADC sample resolution.
#[derive(Debug, Clone, Copy, PartialEq, Eq, Structural)]
pub enum AdcResolution {
    R18,
    R16,
    R14,
    R12,
}

impl AdcResolution {
    pub open spec fn spec_bits(self) -> u8 {
        match self {
            AdcResolution::R18 => 0,
            AdcResolution::R16 => 1,
            AdcResolution::R14 => 2,
            AdcResolution::R12 => 3,
        }
    }

    /// The variant for the two low bits of `b`.
    pub open spec fn spec_from_bits(b: u8) -> AdcResolution {
        let v = b & 3;
        if v == 0 {
            AdcResolution::R18
        } else if v == 1 {
            AdcResolution::R16
        } else if v == 2 {
            AdcResolution::R14
        } else {
            AdcResolution::R12
        }
    }

    pub fn bits(self) -> (r: u8)
        ensures
            r == self.spec_bits(),
    {
        match self {
            AdcResolution::R18 => 0,
            AdcResolution::R16 => 1,
            AdcResolution::R14 => 2,
            AdcResolution::R12 => 3,
        }
    }

    pub fn from_bits(b: u8) -> (r: AdcResolution)
        ensures
            r == Self::spec_from_bits(b),
    {
        let v = b & 3;
        if v == 0 {
            AdcResolution::R18
        } else if v == 1 {
            AdcResolution::R16
        } else if v == 2 {
            AdcResolution::R14
        } else {
            AdcResolution::R12
        }
    }
}

/// Number of samples averaged in one burst.
#[derive(Debug, Clone, Copy, PartialEq, Eq, Structural)]
pub enum BurstMode {
    S1,
    S2,
    S4,
    S8,
    S16,
    S32,
    S64,
    S128,
}

impl BurstMode {
    pub open spec fn spec_bits(self) -> u8 {
        match self {
            BurstMode::S1 => 0,
            BurstMode::S2 => 1,
            BurstMode::S4 => 2,
            BurstMode::S8 => 3,
            BurstMode::S16 => 4,
            BurstMode::S32 => 5,
            BurstMode::S64 => 6,
            BurstMode::S128 => 7,
        }
    }

    /// The variant for the three low bits of `b`.
    pub open spec fn spec_from_bits(b: u8) -> BurstMode {
        let v = b & 7;
        if v == 0 {
            BurstMode::S1
        } else if v == 1 {
            BurstMode::S2
        } else if v == 2 {
            BurstMode::S4
        } else if v == 3 {
            BurstMode::S8
        } else if v == 4 {
            BurstMode::S16
        } else if v == 5 {
            BurstMode::S32
        } else if v == 6 {
            BurstMode::S64
        } else {
            BurstMode::S128
        }
    }

    pub fn bits(self) -> (r: u8)
        ensures
            r == self.spec_bits(),
    {
        match self {
            BurstMode::S1 => 0,
            BurstMode::S2 => 1,
            BurstMode::S4 => 2,
            BurstMode::S8 => 3,
            BurstMode::S16 => 4,
            BurstMode::S32 => 5,
            BurstMode::S64 => 6,
            BurstMode::S128 => 7,
        }
    }

    pub fn from_bits(b: u8) -> (r: BurstMode)
        ensures
            r == Self::spec_from_bits(b),
    {
        let v = b & 7;
        if v == 0 {
            BurstMode::S1
        } else if v == 1 {
            BurstMode::S2
        } else if v == 2 {
            BurstMode::S4
        } else if v == 3 {
            BurstMode::S8
        } else if v == 4 {
            BurstMode::S16
        } else if v == 5 {
            BurstMode::S32
        } else if v == 6 {
            BurstMode::S64
        } else {
            BurstMode::S128
        }
    }
}

/// Operating mode of the device.
#[derive(Debug, Clone, Copy, PartialEq, Eq, Structural)]
pub enum Shutdown {
    Normal,
    Shutdown,
    Burst,
}

impl Shutdown {
    pub open spec fn spec_bits(self) -> u8 {
        match self {
            Shutdown::Normal => 0,
            Shutdown::Shutdown => 1,
            Shutdown::Burst => 2,
        }
    }

    /// The variant for the two low bits of `b`; the pattern `0b11` names none.
    pub open spec fn spec_from_bits(b: u8) -> Option<Shutdown> {
        let v = b & 3;
        if v == 0 {
            Some(Shutdown::Normal)
        } else if v == 1 {
            Some(Shutdown::Shutdown)
        } else if v == 2 {
            Some(Shutdown::Burst)
        } else {
            None
        }
    }

    pub fn bits(self) -> (r: u8)
        ensures
            r == self.spec_bits(),
    {
        match self {
            Shutdown::Normal => 0,
            Shutdown::Shutdown => 1,
            Shutdown::Burst => 2,
        }
    }

    pub fn from_bits(b: u8) -> (r: Option<Shutdown>)
        ensures
            r == Self::spec_from_bits(b),
    {
        let v = b & 3;
        if v == 0 {
            Some(Shutdown::Normal)
        } else if v == 1 {
            Some(Shutdown::Shutdown)
        } else if v == 2 {
            Some(Shutdown::Burst)
        } else {
            None
        }
    }
}

/// Thermocouple type.
#[derive(Debug, Clone, Copy, PartialEq, Eq, Structural)]
pub enum Type {
    K,
    J,
    T,
    N,
    S,
    E,
    B,
    R,
}

impl Type {
    pub open spec fn spec_bits(self) -> u8 {
        match self {
            Type::K => 0,
            Type::J => 1,
            Type::T => 2,
            Type::N => 3,
            Type::S => 4,
            Type::E => 5,
            Type::B => 6,
            Type::R => 7,
        }
    }

    /// The variant for the three low bits of `b`.
    pub open spec fn spec_from_bits(b: u8) -> Type {
        let v = b & 7;
        if v == 0 {
            Type::K
        } else if v == 1 {
            Type::J
        } else if v == 2 {
            Type::T
        } else if v == 3 {
            Type::N
        } else if v == 4 {
            Type::S
        } else if v == 5 {
            Type::E
        } else if v == 6 {
            Type::B
        } else {
            Type::R
        }
    }

    pub fn bits(self) -> (r: u8)
        ensures
            r == self.spec_bits(),
    {
        match self {
            Type::K => 0,
            Type::J => 1,
            Type::T => 2,
            Type::N => 3,
            Type::S => 4,
            Type::E => 5,
            Type::B => 6,
            Type::R => 7,
        }
    }

    pub fn from_bits(b: u8) -> (r: Type)
        ensures
            r == Self::spec_from_bits(b),
    {
        let v = b & 7;
        if v == 0 {
            Type::K
        } else if v == 1 {
            Type::J
        } else if v == 2 {
            Type::T
        } else if v == 3 {
            Type::N
        } else if v == 4 {
            Type::S
        } else if v == 5 {
            Type::E
        } else if v == 6 {
            Type::B
        } else {
            Type::R
        }
    }
}

/// Digital filter coefficient.
#[derive(Debug, Clone, Copy, PartialEq, Eq, Structural)]
pub enum Filter {
    N0,
    N1,
    N2,
    N3,
    N4,
    N5,
    N6,
    N7,
}

impl Filter {
    pub open spec fn spec_bits(self) -> u8 {
        match self {
            Filter::N0 => 0,
            Filter::N1 => 1,
            Filter::N2 => 2,
            Filter::N3 => 3,
            Filter::N4 => 4,
            Filter::N5 => 5,
            Filter::N6 => 6,
            Filter::N7 => 7,
        }
    }

    /// The variant for the three low bits of `b`.
    pub open spec fn spec_from_bits(b: u8) -> Filter {
        let v = b & 7;
        if v == 0 {
            Filter::N0
        } else if v == 1 {
            Filter::N1
        } else if v == 2 {
            Filter::N2
        } else if v == 3 {
            Filter::N3
        } else if v == 4 {
            Filter::N4
        } else if v == 5 {
            Filter::N5
        } else if v == 6 {
            Filter::N6
        } else {
            Filter::N7
        }
    }

    pub fn bits(self) -> (r: u8)
        ensures
            r == self.spec_bits(),
    {
        match self {
            Filter::N0 => 0,
            Filter::N1 => 1,
            Filter::N2 => 2,
            Filter::N3 => 3,
            Filter::N4 => 4,
            Filter::N5 => 5,
            Filter::N6 => 6,
            Filter::N7 => 7,
        }
    }

    pub fn from_bits(b: u8) -> (r: Filter)
        ensures
            r == Self::spec_from_bits(b),
    {
        let v = b & 7;
        if v == 0 {
            Filter::N0
        } else if v == 1 {
            Filter::N1
        } else if v == 2 {
            Filter::N2
        } else if v == 3 {
            Filter::N3
        } else if v == 4 {
            Filter::N4
        } else if v == 5 {
            Filter::N5
        } else if v == 6 {
            Filter::N6
        } else {
            Filter::N7
        }
    }
}

/// Contents of the device configuration register.
#[derive(Debug, Clone, Copy, PartialEq, Eq, Structural)]
pub struct DeviceConfig {
    pub resolution: Resolution,
    pub adc_resolution: AdcResolution,
    pub burst_mode: BurstMode,
    pub shutdown: Shutdown,
}

impl DeviceConfig {
    /// Layout, high bit first: resolution (1), ADC resolution (2), burst mode (3), shutdown (2).
    pub open spec fn spec_byte(self) -> u8 {
        (self.resolution.spec_bits() << 7u8) | (self.adc_resolution.spec_bits() << 5u8) | (
        self.burst_mode.spec_bits() << 2u8) | self.shutdown.spec_bits()
    }

    /// The configuration that a register byte holds, if its shutdown bits name a mode.
    pub open spec fn spec_decode(b: u8) -> Result<DeviceConfig, InvalidField> {
        match Shutdown::spec_from_bits(b) {
            Some(shutdown) => Ok(
                DeviceConfig {
                    resolution: Resolution::spec_from_bits(b >> 7u8),
                    adc_resolution: AdcResolution::spec_from_bits(b >> 5u8),
                    burst_mode: BurstMode::spec_from_bits(b >> 2u8),
                    shutdown,
                },
            ),
            None => Err(InvalidField),
        }
    }

    pub fn as_byte(&self) -> (r: u8)
        ensures
            r == self.spec_byte(),
    {
        (self.resolution.bits() << 7u8) | (self.adc_resolution.bits() << 5u8) | (
        self.burst_mode.bits() << 2u8) | self.shutdown.bits()
    }

    /// Unpacks a register byte; the shutdown pattern `0b11` is refused.
    pub fn from_byte(b: u8) -> (r: Result<DeviceConfig, InvalidField>)
        ensures
            r == Self::spec_decode(b),
            r is Err <==> b & 3 == 3,
    {
        proof {
            assert(b & 3 <= 3) by (bit_vector);
        }
        match Shutdown::from_bits(b) {
            Some(shutdown) => Ok(
                DeviceConfig {
                    resolution: Resolution::from_bits(b >> 7u8),
                    adc_resolution: AdcResolution::from_bits(b >> 5u8),
                    burst_mode: BurstMode::from_bits(b >> 2u8),
                    shutdown,
                },
            ),
            None => Err(InvalidField),
        }
    }
}

impl Default for DeviceConfig {
    fn default() -> (r: Self)
        ensures
            r == (DeviceConfig {
                resolution: Resolution::High,
                adc_resolution: AdcResolution::R14,
                burst_mode: BurstMode::S8,
                shutdown: Shutdown::Burst,
            }),
    {
        DeviceConfig {
            resolution: Resolution::High,
            adc_resolution: AdcResolution::R14,
            burst_mode: BurstMode::S8,
            shutdown: Shutdown::Burst,
        }
    }
}

/// Contents of the sensor configuration register.
#[derive(Debug, Clone, Copy, PartialEq, Eq, Structural)]
pub struct SensorConfig {
    pub t_type: Type,
    pub filter: Filter,
}

impl SensorConfig {
    /// Layout: thermocouple type in bits 6..4, filter coefficient in bits 2..0.
    pub open spec fn spec_byte(self) -> u8 {
        (self.t_type.spec_bits() << 4u8) | self.filter.spec_bits()
    }

    /// The configuration that a register byte holds; bits 7 and 3 are not read.
    pub open spec fn spec_decode(b: u8) -> SensorConfig {
        SensorConfig { t_type: Type::spec_from_bits(b >> 4u8), filter: Filter::spec_from_bits(b) }
    }

    pub fn new(t_type: Type, filter: Filter) -> (r: SensorConfig)
        ensures
            r.t_type == t_type,
            r.filter == filter,
    {
        SensorConfig { t_type, filter }
    }

    pub fn as_byte(&self) -> (r: u8)
        ensures
            r == self.spec_byte(),
    {
        (self.t_type.bits() << 4u8) | self.filter.bits()
    }

    pub fn from_byte(b: u8) -> (r: SensorConfig)
        ensures
            r == Self::spec_decode(b),
    {
        SensorConfig { t_type: Type::from_bits(b >> 4u8), filter: Filter::from_bits(b) }
    }
}

impl Default for SensorConfig {
    fn default() -> (r: Self)
        ensures
            r == (SensorConfig { t_type: Type::K, filter: Filter::N3 }),
    {
        SensorConfig { t_type: Type::K, filter: Filter::N3 }
    }
}

impl From<DeviceConfig> for u8 {
    fn from(config: DeviceConfig) -> (r: u8)
        ensures
            r == config.spec_byte(),
    {
        config.as_byte()
    }
}

impl vstd::std_specs::convert::FromSpecImpl<DeviceConfig> for u8 {
    open spec fn obeys_from_spec() -> bool {
        true
    }

    open spec fn from_spec(config: DeviceConfig) -> u8 {
        config.spec_byte()
    }
}

impl From<SensorConfig> for u8 {
    fn from(config: SensorConfig) -> (r: u8)
        ensures
            r == config.spec_byte(),
    {
        config.as_byte()
    }
}

impl vstd::std_specs::convert::FromSpecImpl<SensorConfig> for u8 {
    open spec fn obeys_from_spec() -> bool {
        true
    }

    open spec fn from_spec(config: SensorConfig) -> u8 {
        config.spec_byte()
    }
}

impl From<u8> for SensorConfig {
    fn from(b: u8) -> (r: SensorConfig)
        ensures
            r == SensorConfig::spec_decode(b),
    {
        SensorConfig::from_byte(b)
    }
}

impl vstd::std_specs::convert::FromSpecImpl<u8> for SensorConfig {
    open spec fn obeys_from_spec() -> bool {
        true
    }

    open spec fn from_spec(b: u8) -> SensorConfig {
        SensorConfig::spec_decode(b)
    }
}

/// Decoding the byte that a device configuration encodes to gives that configuration back.
pub proof fn lemma_device_config_round_trip(c: DeviceConfig)
    ensures
        DeviceConfig::spec_decode(c.spec_byte()) == Ok::<DeviceConfig, InvalidField>(c),
{
    let r = c.resolution.spec_bits();
    let a = c.adc_resolution.spec_bits();
    let m = c.burst_mode.spec_bits();
    let s = c.shutdown.spec_bits();
    assert(r < 2 && a < 4 && m < 8 && s < 3);
    let x = c.spec_byte();
    assert(x == (r << 7u8) | (a << 5u8) | (m << 2u8) | s);
    assert(r < 2 && a < 4 && m < 8 && s < 3 && x == (r << 7u8) | (a << 5u8) | (m << 2u8) | s
        ==> x & 3 == s && (x >> 2u8) & 7 == m && (x >> 5u8) & 3 == a && (x >> 7u8) & 1 == r)
        by (bit_vector);
}

/// Every byte that decodes as a device configuration is the encoding of what it decodes to.
pub proof fn lemma_device_config_decode_exact(b: u8)
    ensures
        DeviceConfig::spec_decode(b) matches Ok(c) ==> c.spec_byte() == b,
{
    if let Ok(c) = DeviceConfig::spec_decode(b) {
        let r = c.resolution.spec_bits();
        let a = c.adc_resolution.spec_bits();
        let m = c.burst_mode.spec_bits();
        let s = c.shutdown.spec_bits();
        assert((b >> 7u8) & 1 <= 1 && (b >> 5u8) & 3 <= 3 && (b >> 2u8) & 7 <= 7 && b & 3 <= 3)
            by (bit_vector);
        assert(r == (b >> 7u8) & 1 && a == (b >> 5u8) & 3 && m == (b >> 2u8) & 7 && s == b & 3);
        assert(b == (((b >> 7u8) & 1) << 7u8) | (((b >> 5u8) & 3) << 5u8) | (((b >> 2u8) & 7)
            << 2u8) | (b & 3)) by (bit_vector);
    }
}

/// A device configuration byte whose shutdown bits are `0b11` is refused.
pub proof fn lemma_device_config_rejects_reserved_mode(b: u8)
    requires
        b & 3 == 3,
    ensures
        DeviceConfig::spec_decode(b) == Err::<DeviceConfig, InvalidField>(InvalidField),
{
}

/// Decoding the byte that a sensor configuration encodes to gives that configuration back.
pub proof fn lemma_sensor_config_round_trip(c: SensorConfig)
    ensures
        SensorConfig::spec_decode(c.spec_byte()) == c,
{
    let t = c.t_type.spec_bits();
    let f = c.filter.spec_bits();
    assert(t < 8 && f < 8);
    let x = c.spec_byte();
    assert(t < 8 && f < 8 && x == (t << 4u8) | f ==> (x >> 4u8) & 7 == t && x & 7 == f)
        by (bit_vector);
}

} // verus!
