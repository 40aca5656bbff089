//! Opcodes 0x80 to 0xBF: the ALU on A and a byte operand.
use vstd::prelude::*;
use crate::common::{alu, alu_a_operand};
use crate::console::{Console, Machine};

verus! {

impl Machine {
    /// An opcode of block two, PC already past it.
    #[verifier::opaque]
    pub open spec fn block_two(self, instr: u8) -> Machine {
        self.with_regs(alu(self.regs, (instr >> 3u8) & 7, self.r8(instr & 7)))
    }
}

/// Executes `instr`, an opcode of block two; PC is already past it.
pub fn dispatch(console: &mut Console, instr: u8)
    requires
        old(console)@.wf(),
        0x80 <= instr < 0xC0,
    ensures
        final(console)@ == old(console)@.block_two(instr),
        final(console)@.wf(),
{
    reveal(Machine::block_two);
    let r8: u8 = instr & 7;
    let op: u8 = (instr >> 3u8) & 7;
    assert(r8 < 8 && op < 8) by (bit_vector)
        requires
            r8 == instr & 7,
            op == (instr >> 3u8) & 7,
    ;
    let operand = console.get_r8(r8);
    alu_a_operand(op, operand, console);
}

} // verus!
