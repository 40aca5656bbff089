//! Opcodes 0x40 to 0x7F: byte loads between operands, and HALT at 0x76.
use vstd::prelude::*;
use crate::console::{Console, Machine};

verus! {

impl Machine {
    pub open spec fn ld_r8_r8(self, src: u8, dst: u8) -> Machine {
        self.set_r8(dst, self.r8(src))
    }

    /// HALT waits for a pending interrupt; with IME clear and one already
    /// pending it does not wait, and the next opcode byte is read twice.
    pub open spec fn halt(self) -> Machine {
        if self.bus.ime == 0 && self.pending() != 0 {
            Machine { halt_bug: true, ..self }
        } else {
            Machine { halted: true, ..self }
        }
    }

    /// An opcode of block one, PC already past it.
    #[verifier::opaque]
    pub open spec fn block_one(self, instr: u8) -> Machine {
        if instr == 0x76 {
            self.halt()
        } else {
            self.ld_r8_r8(instr & 7, (instr >> 3u8) & 7)
        }
    }
}

fn ld_r8_r8(src: u8, dst: u8, console: &mut Console)
    requires
        old(console)@.wf(),
        src < 8,
        dst < 8,
    ensures
        final(console)@ == old(console)@.ld_r8_r8(src, dst),
{
    let v = console.get_r8(src);
    console.set_r8(dst, v);
}

fn halt(console: &mut Console)
    requires
        old(console)@.wf(),
    ensures
        final(console)@ == old(console)@.halt(),
{
    let ie = console.bus.mem[0xFFFF];
    let iflag = console.bus.mem[0xFF0F];
    if console.bus.ime == 0 && ie & iflag & 0x1F != 0 {
        console.halt_bug = true;
    } else {
        console.halted = true;
    }
}

/// Executes `instr`, an opcode of block one; PC is already past it.
pub fn dispatch(console: &mut Console, instr: u8)
    requires
        old(console)@.wf(),
        0x40 <= instr < 0x80,
    ensures
        final(console)@ == old(console)@.block_one(instr),
        final(console)@.wf(),
{
    reveal(Machine::block_one);
    let src: u8 = instr & 7;
    let dst: u8 = (instr >> 3u8) & 7;
    assert(src < 8 && dst < 8) by (bit_vector)
        requires
            src == instr & 7,
            dst == (instr >> 3u8) & 7,
    ;
    if instr == 0x76 {
        halt(console);
    } else {
        ld_r8_r8(src, dst, console);
    }
}

} // verus!
