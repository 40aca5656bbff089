//! Indices of the sixteen-bit address operands (`r16mem`).
use vstd::prelude::*;

verus! {

pub const BC: u8 = 0;
pub const DE: u8 = 1;
/// HL, incremented after use.
pub const HLI: u8 = 2;
/// HL, decremented after use.
pub const HLD: u8 = 3;


/// The mnemonic name of address operand `reg`.
pub fn reg_to_name(reg: u8) -> (r: String)
    requires
        reg == BC || reg == DE || reg == HLI || reg == HLD,
    ensures
        reg == BC ==> r@ == "BC"@,
        reg == DE ==> r@ == "DE"@,
        reg == HLI ==> r@ == "HLI"@,
        reg == HLD ==> r@ == "HLD"@,
{
    let name = match reg {
        BC => "BC",
        DE => "DE",
        HLI => "HLI",
        _ => "HLD",
    };
    name.to_owned()
}

} // verus!
