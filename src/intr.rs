//! The five interrupt sources, by priority, with their request bits and
//! vectors.
use vstd::prelude::*;

verus! {

pub const VBLANK: u8 = 0b00001;
pub const LCD: u8 = 0b00010;
pub const TIMER: u8 = 0b00100;
pub const SERIAL: u8 = 0b01000;
pub const JOYPAD: u8 = 0b10000;

pub open spec fn is_source(mask: u8) -> bool {
    mask == VBLANK || mask == LCD || mask == TIMER || mask == SERIAL || mask == JOYPAD
}

/// The source that `pending` selects: its lowest set bit, which has the
/// highest priority (JOYPAD when none of the four higher bits is set).
pub open spec fn priority_mask(pending: u8) -> u8 {
    if pending & VBLANK != 0 {
        VBLANK
    } else if pending & LCD != 0 {
        LCD
    } else if pending & TIMER != 0 {
        TIMER
    } else if pending & SERIAL != 0 {
        SERIAL
    } else {
        JOYPAD
    }
}

pub open spec fn vector_of(mask: u8) -> u16 {
    if mask == VBLANK {
        0x40
    } else if mask == LCD {
        0x48
    } else if mask == TIMER {
        0x50
    } else if mask == SERIAL {
        0x58
    } else {
        0x60
    }
}

/// The highest-priority source among `pending`; JOYPAD when none of the
/// four higher bits is set.
pub fn highest_priority(pending: u8) -> (r: u8)
    ensures
        r == priority_mask(pending),
        is_source(r),
{
    if pending & VBLANK != 0 {
        VBLANK
    } else if pending & LCD != 0 {
        LCD
    } else if pending & TIMER != 0 {
        TIMER
    } else if pending & SERIAL != 0 {
        SERIAL
    } else {
        JOYPAD
    }
}

/// The address that the handler of source `mask` starts at.
pub fn get_jump_vector(mask: u8) -> (r: u16)
    requires
        is_source(mask),
    ensures
        r == vector_of(mask),
{
    match mask {
        VBLANK => 0x40,
        LCD => 0x48,
        TIMER => 0x50,
        SERIAL => 0x58,
        _ => 0x60,
    }
}


/// The name of interrupt source `mask`.
pub fn intr_to_name(mask: u8) -> (r: String)
    requires
        mask == VBLANK || mask == LCD || mask == TIMER || mask == SERIAL || mask == JOYPAD,
    ensures
        mask == VBLANK ==> r@ == "VBLANK"@,
        mask == LCD ==> r@ == "LCD"@,
        mask == TIMER ==> r@ == "TIMER"@,
        mask == SERIAL ==> r@ == "SERIAL"@,
        mask == JOYPAD ==> r@ == "JOYPAD"@,
{
    let name = match mask {
        VBLANK => "VBLANK",
        LCD => "LCD",
        TIMER => "TIMER",
        SERIAL => "SERIAL",
        _ => "JOYPAD",
    };
    name.to_owned()
}

} // verus!
