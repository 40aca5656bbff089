//! The opcodes after the 0xCB prefix: rotates, shifts, SWAP, and BIT, RES,
//! SET of a bit of a byte operand.
use vstd::prelude::*;
use crate::common::{rotate_operand, shift_op_of, shift_value, ShiftOp};
use crate::console::{Console, Machine};
use crate::registers::Registers;

verus! {

impl Machine {
    /// BIT: Z set iff bit `b3` of the operand is clear; N cleared, H set, C
    /// kept.
    pub open spec fn bit_b3_r8(self, b3: u8, r8: u8) -> Machine {
        self.with_regs(
            Registers {
                zf: self.r8(r8) & (1u8 << b3) == 0,
                nf: false,
                hf: true,
                ..self.regs
            },
        )
    }

    pub open spec fn res_b3_r8(self, b3: u8, r8: u8) -> Machine {
        self.set_r8(r8, self.r8(r8) & !(1u8 << b3))
    }

    pub open spec fn set_b3_r8(self, b3: u8, r8: u8) -> Machine {
        self.set_r8(r8, self.r8(r8) | (1u8 << b3))
    }

    /// A prefixed opcode, PC already past both bytes.
    #[verifier::opaque]
    pub open spec fn block_cb(self, instr: u8) -> Machine {
        let r8 = instr & 7;
        let b3 = (instr >> 3u8) & 7;
        if instr < 0x40 {
            self.shift_r8(shift_op_of(b3), r8)
        } else if instr < 0x80 {
            self.bit_b3_r8(b3, r8)
        } else if instr < 0xC0 {
            self.res_b3_r8(b3, r8)
        } else {
            self.set_b3_r8(b3, r8)
        }
    }
}

fn rotate(r8: u8, console: &mut Console, op: ShiftOp)
    requires
        old(console)@.wf(),
        r8 < 8,
        op == ShiftOp::Rlc || op == ShiftOp::Rrc || op == ShiftOp::Rl || op == ShiftOp::Rr,
    ensures
        final(console)@ == old(console)@.shift_r8(op, r8),
{
    rotate_operand(r8, console, op);
}

/// SLA, SRA, SWAP and SRL of operand `r8`.
fn shift(r8: u8, console: &mut Console, op: ShiftOp)
    requires
        old(console)@.wf(),
        r8 < 8,
    ensures
        final(console)@ == old(console)@.shift_r8(op, r8),
{
    let v = console.get_r8(r8);
    let (res, c) = shift_value(op, v, console.regs.cf);
    console.regs.zf = res == 0;
    console.regs.nf = false;
    console.regs.hf = false;
    console.regs.cf = c;
    console.set_r8(r8, res);
}

fn swap_r8(r8: u8, console: &mut Console)
    requires
        old(console)@.wf(),
        r8 < 8,
    ensures
        final(console)@ == old(console)@.shift_r8(ShiftOp::Swap, r8),
{
    shift(r8, console, ShiftOp::Swap);
}

fn srl_r8(r8: u8, console: &mut Console)
    requires
        old(console)@.wf(),
        r8 < 8,
    ensures
        final(console)@ == old(console)@.shift_r8(ShiftOp::Srl, r8),
{
    shift(r8, console, ShiftOp::Srl);
}

fn bit_b3_r8(b3: u8, r8: u8, console: &mut Console)
    requires
        old(console)@.wf(),
        b3 < 8,
        r8 < 8,
    ensures
        final(console)@ == old(console)@.bit_b3_r8(b3, r8),
{
    let v = console.get_r8(r8);
    console.regs.zf = v & (1u8 << b3) == 0;
    console.regs.nf = false;
    console.regs.hf = true;
}

fn res_b3_r8(b3: u8, r8: u8, console: &mut Console)
    requires
        old(console)@.wf(),
        b3 < 8,
        r8 < 8,
    ensures
        final(console)@ == old(console)@.res_b3_r8(b3, r8),
{
    let v = console.get_r8(r8);
    console.set_r8(r8, v & !(1u8 << b3));
}

fn set_b3_r8(b3: u8, r8: u8, console: &mut Console)
    requires
        old(console)@.wf(),
        b3 < 8,
        r8 < 8,
    ensures
        final(console)@ == old(console)@.set_b3_r8(b3, r8),
{
    let v = console.get_r8(r8);
    console.set_r8(r8, v | (1u8 << b3));
}

/// Executes `instr`, the byte after a 0xCB prefix; PC is already past it.
pub fn dispatch(console: &mut Console, instr: u8)
    requires
        old(console)@.wf(),
    ensures
        final(console)@ == old(console)@.block_cb(instr),
        final(console)@.wf(),
{
    reveal(Machine::block_cb);
    let r8: u8 = instr & 7;
    let b3: u8 = (instr >> 3u8) & 7;
    assert(r8 < 8 && b3 < 8) by (bit_vector)
        requires
            r8 == instr & 7,
            b3 == (instr >> 3u8) & 7,
    ;
    if instr < 0x40 {
        match b3 {
            0 => rotate(r8, console, ShiftOp::Rlc),
            1 => rotate(r8, console, ShiftOp::Rrc),
            2 => rotate(r8, console, ShiftOp::Rl),
            3 => rotate(r8, console, ShiftOp::Rr),
            4 => shift(r8, console, ShiftOp::Sla),
            5 => shift(r8, console, ShiftOp::Sra),
            6 => swap_r8(r8, console),
            _ => srl_r8(r8, console),
        }
    } else if instr < 0x80 {
        bit_b3_r8(b3, r8, console);
    } else if instr < 0xC0 {
        res_b3_r8(b3, r8, console);
    } else {
        set_b3_r8(b3, r8, console);
    }
}

} // verus!
