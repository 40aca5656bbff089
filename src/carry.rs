//! Carry out of the top bit of eight- and sixteen-bit operations.
use vstd::prelude::*;

verus! {

/// Whether `base + addend + carry` carries out of bit 7.
pub fn add_8(base: u8, addend: u8, carry: u8) -> (r: bool)
    requires
        carry <= 1,
    ensures
        r == (base as int + addend as int + carry as int > 0xFF),
{
    (base as u16) + (addend as u16) + (carry as u16) > 0xFF
}

/// Whether `base - subtrahend - carry` borrows from bit 8.
pub fn sub_8(base: u8, subtrahend: u8, carry: u8) -> (r: bool)
    requires
        carry <= 1,
    ensures
        r == ((base as int - subtrahend as int - carry as int) < 0),
{
    (base as u16) < (subtrahend as u16) + (carry as u16)
}

/// Whether `base + addend` carries out of bit 15.
pub fn add_16(base: u16, addend: u16) -> (r: bool)
    ensures
        r == (base as int + addend as int > 0xFFFF),
{
    (base as u32) + (addend as u32) > 0xFFFF
}

/// Whether `base - subtrahend` borrows from bit 16.
pub fn sub_16(base: u16, subtrahend: u16) -> (r: bool)
    ensures
        r == ((base as int) < (subtrahend as int)),
{
    base < subtrahend
}

} // verus!
