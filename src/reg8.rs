//! Indices of the eight-bit operands (`r8`).
use vstd::prelude::*;

verus! {

pub const B: u8 = 0;
pub const C: u8 = 1;
pub const D: u8 = 2;
pub const E: u8 = 3;
pub const H: u8 = 4;
pub const L: u8 = 5;
/// The byte at the address held in HL.
pub const HL_ADDR: u8 = 6;
pub const A: u8 = 7;
/// The accumulator named by an unprefixed rotate (RLCA, RRCA, RLA, RRA).
pub const EA: u8 = 8;


/// The mnemonic name of byte operand `reg`.
pub fn reg_to_name(reg: u8) -> (r: String)
    requires
        reg == B || reg == C || reg == D || reg == E || reg == H || reg == L || reg == HL_ADDR || reg == A || reg == EA,
    ensures
        reg == B ==> r@ == "B"@,
        reg == C ==> r@ == "C"@,
        reg == D ==> r@ == "D"@,
        reg == E ==> r@ == "E"@,
        reg == H ==> r@ == "H"@,
        reg == L ==> r@ == "L"@,
        reg == HL_ADDR ==> r@ == "[HL]"@,
        reg == A ==> r@ == "A"@,
        reg == EA ==> r@ == "A"@,
{
    let name = match reg {
        B => "B",
        C => "C",
        D => "D",
        E => "E",
        H => "H",
        L => "L",
        HL_ADDR => "[HL]",
        A => "A",
        _ => "A",
    };
    name.to_owned()
}

} // verus!
