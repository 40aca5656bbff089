//! Indices of the sixteen-bit stack operands (`r16stk`).
use vstd::prelude::*;

verus! {

pub const BC: u8 = 0;
pub const DE: u8 = 1;
pub const HL: u8 = 2;
pub const AF: u8 = 3;


/// The mnemonic name of stack word `reg`.
pub fn reg_to_name(reg: u8) -> (r: String)
    requires
        reg == BC || reg == DE || reg == HL || reg == AF,
    ensures
        reg == BC ==> r@ == "BC"@,
        reg == DE ==> r@ == "DE"@,
        reg == HL ==> r@ == "HL"@,
        reg == AF ==> r@ == "AF"@,
{
    let name = match reg {
        BC => "BC",
        DE => "DE",
        HL => "HL",
        _ => "AF",
    };
    name.to_owned()
}

} // verus!
