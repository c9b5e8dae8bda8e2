use vstd::prelude::*;

verus! {

/// Signed value of a 16-bit pattern read as two's complement.
pub open spec fn signed_of(v: u16) -> int {
    if v < 0x8000 {
        v as int
    } else {
        v as int - 0x10000
    }
}

/// A temperature in signed fixed point with 12 integer and 4 fractional bits:
/// `bits` counts sixteenths of a degree Celsius.
#[derive(Debug, Clone, Copy, PartialEq, Eq, Structural)]
pub struct Temperature {
    pub bits: i16,
}

impl Temperature {
    /// The temperature in sixteenths of a degree.
    pub open spec fn sixteenths(self) -> int {
        self.bits as int
    }

    /// The register value that holds this temperature.
    pub open spec fn spec_register(self) -> u16 {
        if self.bits >= 0 {
            self.bits as u16
        } else {
            (self.bits + 0x10000) as u16
        }
    }

    /// The temperature whose fixed-point bit pattern is the register value `v`.
    pub open spec fn spec_from_register(v: u16) -> Temperature {
        Temperature { bits: signed_of(v) as i16 }
    }

    pub fn from_bits(bits: i16) -> (r: Temperature)
        ensures
            r.bits == bits,
    {
        Temperature { bits }
    }

    pub fn to_bits(&self) -> (r: i16)
        ensures
            r == self.bits,
    {
        self.bits
    }

    /// Reads a 16-bit register value as the fixed-point bit pattern.
    pub fn from_register(v: u16) -> (r: Temperature)
        ensures
            r == Self::spec_from_register(v),
            r.sixteenths() == signed_of(v),
    {
        if v < 0x8000 {
            Temperature { bits: v as i16 }
        } else {
            Temperature { bits: (v as i32 - 0x10000) as i16 }
        }
    }

    /// The register value that holds this temperature.
    pub fn to_register(&self) -> (r: u16)
        ensures
            r == self.spec_register(),
            signed_of(r) == self.sixteenths(),
    {
        if self.bits >= 0 {
            self.bits as u16
        } else {
            (self.bits as i32 + 0x10000) as u16
        }
    }

    /// Whole degrees, rounded toward negative infinity.
    pub fn whole_degrees(&self) -> (r: i16)
        ensures
            r as int == self.sixteenths() / 16,
    {
        if self.bits >= 0 {
            self.bits / 16
        } else {
            -((15 - self.bits as i32) / 16) as i16
        }
    }

    /// Sixteenths of a degree above `whole_degrees`, from 0 to 15.
    pub fn fraction_sixteenths(&self) -> (r: u8)
        ensures
            r as int == self.sixteenths() % 16,
    {
        (((self.bits as i32) % 16 + 16) % 16) as u8
    }
}

/// Reading a register value and writing it back loses nothing, in both directions.
pub proof fn lemma_register_round_trip(v: u16, t: Temperature)
    ensures
        signed_of(t.spec_register()) == t.sixteenths(),
        signed_of(v) == t.sixteenths() ==> t.spec_register() == v,
{
}

/// The temperature codec keeps the sign: a register value with its top bit set
/// is below zero, and one without it is not.
pub proof fn lemma_sign_extension(v: u16)
    ensures
        v >= 0x8000 <==> signed_of(v) < 0,
        -0x8000 <= signed_of(v) < 0x8000,
{
}

} // verus!
