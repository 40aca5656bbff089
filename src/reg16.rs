//! Indices of the sixteen-bit arithmetic operands (`r16`).
use vstd::prelude::*;

verus! {

pub const BC: u8 = 0;
pub const DE: u8 = 1;
pub const HL: u8 = 2;
pub const SP: u8 = 3;


/// The mnemonic name of word operand `reg`.
pub fn reg_to_name(reg: u8) -> (r: String)
    requires
        reg == BC || reg == DE || reg == HL || reg == SP,
    ensures
        reg == BC ==> r@ == "BC"@,
        reg == DE ==> r@ == "DE"@,
        reg == HL ==> r@ == "HL"@,
        reg == SP ==> r@ == "SP"@,
{
    let name = match reg {
        BC => "BC",
        DE => "DE",
        HL => "HL",
        _ => "SP",
    };
    name.to_owned()
}

} // verus!
