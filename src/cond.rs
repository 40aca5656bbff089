//! Condition codes (`cc`).
use vstd::prelude::*;

verus! {

pub const NZ: u8 = 0;
pub const Z: u8 = 1;
pub const NC: u8 = 2;
pub const C: u8 = 3;


/// The mnemonic name of condition code `cc`.
pub fn get_cond_name(cc: u8) -> (r: String)
    requires
        cc == NZ || cc == Z || cc == NC || cc == C,
    ensures
        cc == NZ ==> r@ == "NZ"@,
        cc == Z ==> r@ == "Z"@,
        cc == NC ==> r@ == "NC"@,
        cc == C ==> r@ == "C"@,
{
    let name = match cc {
        NZ => "NZ",
        Z => "Z",
        NC => "NC",
        _ => "C",
    };
    name.to_owned()
}

} // verus!
