//! Masks of the four flags in F.
use vstd::prelude::*;

verus! {

pub const Z: u8 = 0x80;
pub const N: u8 = 0x40;
pub const H: u8 = 0x20;
pub const C: u8 = 0x10;

/// `f` names exactly one flag.
pub open spec fn is_flag(f: u8) -> bool {
    f == Z || f == N || f == H || f == C
}


/// The name of the flag that mask `flag` selects.
pub fn flag_to_name(flag: u8) -> (r: String)
    requires
        flag == Z || flag == N || flag == H || flag == C,
    ensures
        flag == Z ==> r@ == "Z"@,
        flag == N ==> r@ == "N"@,
        flag == H ==> r@ == "H"@,
        flag == C ==> r@ == "C"@,
{
    let name = match flag {
        Z => "Z",
        N => "N",
        H => "H",
        _ => "C",
    };
    name.to_owned()
}

} // verus!
