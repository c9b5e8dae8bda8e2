use vstd::prelude::*;
use crate::register::Register;

verus! {

/// Bytes of a single-byte register write: the register pointer, then the data.
pub fn write_frame(register: Register, data: u8) -> (r: [u8; 2])
    ensures
        r@ == seq![register.spec_index(), data],
{
    [register.index(), data]
}

/// Bytes written to select a register before it is read.
pub fn pointer_frame(register: Register) -> (r: [u8; 1])
    ensures
        r@ == seq![register.spec_index()],
{
    [register.index()]
}

/// The value of two bytes read from a 16-bit register, most significant first.
pub open spec fn spec_word(hi: u8, lo: u8) -> u16 {
    (hi as int * 256 + lo as int) as u16
}

pub fn word_from_be_bytes(buf: [u8; 2]) -> (r: u16)
    ensures
        r == spec_word(buf@[0], buf@[1]),
{
    let hi = buf[0];
    let lo = buf[1];
    hi as u16 * 256 + lo as u16
}

} // verus!
