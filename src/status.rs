use vstd::prelude::*;

verus! {

/// Bit `i` of `b`, as 0 or 1.
pub open spec fn bit_of(b: u8, i: u8) -> u8 {
    (b >> i) & 1
}

/// The status register: one flag per bit.
#[derive(Debug, Clone, Copy, PartialEq, Eq, Structural)]
pub struct SensorRegister {
    pub bits: u8,
}

impl SensorRegister {
    pub fn new(bits: u8) -> (r: SensorRegister)
        ensures
            r.bits == bits,
    {
        SensorRegister { bits }
    }

    pub fn alert_1(&self) -> (r: u8)
        ensures
            r == bit_of(self.bits, 0),
    {
        (self.bits >> 0u8) & 1
    }

    pub fn alert_2(&self) -> (r: u8)
        ensures
            r == bit_of(self.bits, 1),
    {
        (self.bits >> 1u8) & 1
    }

    pub fn alert_3(&self) -> (r: u8)
        ensures
            r == bit_of(self.bits, 2),
    {
        (self.bits >> 2u8) & 1
    }

    pub fn alert_5(&self) -> (r: u8)
        ensures
            r == bit_of(self.bits, 3),
    {
        (self.bits >> 3u8) & 1
    }

    pub fn in_range(&self) -> (r: u8)
        ensures
            r == bit_of(self.bits, 4),
    {
        (self.bits >> 4u8) & 1
    }

    pub fn sc(&self) -> (r: u8)
        ensures
            r == bit_of(self.bits, 5),
    {
        (self.bits >> 5u8) & 1
    }

    pub fn t_update(&self) -> (r: u8)
        ensures
            r == bit_of(self.bits, 6),
    {
        (self.bits >> 6u8) & 1
    }

    pub fn burst_complete(&self) -> (r: u8)
        ensures
            r == bit_of(self.bits, 7),
    {
        (self.bits >> 7u8) & 1
    }
}

} // verus!
