use vstd::prelude::*;

verus! {

/// Seven-bit bus address selected by the address strap of the device.
#[derive(Debug, Clone, Copy, PartialEq, Eq, Structural)]
pub enum Address {
    Addr0,
    Addr1,
}

impl Address {
    /// Wire value of the address.
    pub open spec fn spec_value(self) -> u8 {
        match self {
            Address::Addr0 => 0x66,
            Address::Addr1 => 0x67,
        }
    }

    pub fn value(self) -> (r: u8)
        ensures
            r == self.spec_value(),
    {
        match self {
            Address::Addr0 => 0x66,
            Address::Addr1 => 0x67,
        }
    }
}

impl Default for Address {
    fn default() -> (r: Self)
        ensures
            r == Address::Addr0,
    {
        Address::Addr0
    }
}

/// The addressable registers of the converter.
#[derive(Debug, Clone, Copy, PartialEq, Eq, Structural)]
pub enum Register {
    HotJunctionTemp,
    JunctionTempDelta,
    ColdJunctionTemp,
    AdcRawData,
    Status,
    SensorConfiguration,
    DeviceConfiguration,
    Alert1Config,
    Alert2Config,
    Alert3Config,
    Alert4Config,
    Alert1Hysteresis,
    Alert2Hysteresis,
    Alert3Hysteresis,
    Alert4Hysteresis,
    Alert1Limit,
    Alert2Limit,
    Alert3Limit,
    Alert4Limit,
    DeviceId,
}

impl Register {
    /// Register pointer sent on the wire.
    pub open spec fn spec_index(self) -> u8 {
        match self {
            Register::HotJunctionTemp => 0x00,
            Register::JunctionTempDelta => 0x01,
            Register::ColdJunctionTemp => 0x02,
            Register::AdcRawData => 0x03,
            Register::Status => 0x04,
            Register::SensorConfiguration => 0x05,
            Register::DeviceConfiguration => 0x06,
            Register::Alert1Config => 0x08,
            Register::Alert2Config => 0x09,
            Register::Alert3Config => 0x0a,
            Register::Alert4Config => 0x0b,
            Register::Alert1Hysteresis => 0x0c,
            Register::Alert2Hysteresis => 0x0d,
            Register::Alert3Hysteresis => 0x0e,
            Register::Alert4Hysteresis => 0x0f,
            Register::Alert1Limit => 0x10,
            Register::Alert2Limit => 0x11,
            Register::Alert3Limit => 0x12,
            Register::Alert4Limit => 0x13,
            Register::DeviceId => 0x20,
        }
    }

    pub fn index(self) -> (r: u8)
        ensures
            r == self.spec_index(),
    {
        match self {
            Register::HotJunctionTemp => 0x00,
            Register::JunctionTempDelta => 0x01,
            Register::ColdJunctionTemp => 0x02,
            Register::AdcRawData => 0x03,
            Register::Status => 0x04,
            Register::SensorConfiguration => 0x05,
            Register::DeviceConfiguration => 0x06,
            Register::Alert1Config => 0x08,
            Register::Alert2Config => 0x09,
            Register::Alert3Config => 0x0a,
            Register::Alert4Config => 0x0b,
            Register::Alert1Hysteresis => 0x0c,
            Register::Alert2Hysteresis => 0x0d,
            Register::Alert3Hysteresis => 0x0e,
            Register::Alert4Hysteresis => 0x0f,
            Register::Alert1Limit => 0x10,
            Register::Alert2Limit => 0x11,
            Register::Alert3Limit => 0x12,
            Register::Alert4Limit => 0x13,
            Register::DeviceId => 0x20,
        }
    }
}

/// Distinct registers have distinct pointers on the wire.
pub proof fn lemma_register_index_injective(a: Register, b: Register)
    ensures
        a.spec_index() == b.spec_index() <==> a == b,
{
}

} // verus!
