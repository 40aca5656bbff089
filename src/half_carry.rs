//! Carry out of the low nibble (eight-bit operations) or of the low twelve
//! bits (sixteen-bit operations).
use vstd::prelude::*;

verus! {

/// Whether `base + addend + carry` carries out of bit 3.
pub fn add_8(base: u8, addend: u8, carry: u8) -> (r: bool)
    requires
        carry <= 1,
    ensures
        r == ((base % 16) as int + (addend % 16) as int + carry as int >= 16),
{
    (base % 16) + (addend % 16) + carry >= 16
}

/// Whether `base - subtrahend - carry` borrows from bit 4.
pub fn sub_8(base: u8, subtrahend: u8, carry: u8) -> (r: bool)
    requires
        carry <= 1,
    ensures
        r == (((base % 16) as int - (subtrahend % 16) as int - carry as int) < 0),
{
    (base % 16) < (subtrahend % 16) + carry
}

/// Whether `base + addend` carries out of bit 11.
pub fn add_16(base: u16, addend: u16) -> (r: bool)
    ensures
        r == ((base % 4096) as int + (addend % 4096) as int >= 4096),
{
    (base % 4096) + (addend % 4096) >= 4096
}

/// Whether `base - subtrahend` borrows from bit 12.
pub fn sub_16(base: u16, subtrahend: u16) -> (r: bool)
    ensures
        r == (((base % 4096) as int) < ((subtrahend % 4096) as int)),
{
    (base % 4096) < (subtrahend % 4096)
}

} // verus!
