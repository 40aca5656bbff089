//! Core of a Game Boy (DMG) emulator: the LR35902 interpreter with its
//! register file, the memory bus with its region locks, the interrupt
//! controller, the picture unit's scanline pipeline, and the debugger's
//! decisions.
//!
//! Every instruction has a meaning as a function on `console::Machine`, the
//! console as a value; the executing code is proved to follow it.
pub mod bus;
pub mod carry;
pub mod clock;
pub mod common;
pub mod console;
pub mod cpu;
pub mod debugger;
pub mod half_carry;
pub mod intr;
pub mod laws;
pub mod ppu;
pub mod registers;

pub mod block_cb;
pub mod block_one;
pub mod block_three;
pub mod block_two;
pub mod block_zero;

pub mod cond;
pub mod flag;
pub mod reg16;
pub mod reg16mem;
pub mod reg16stk;
pub mod reg8;
