//! The ALU: eight-bit arithmetic, logic, compare, and the rotates and shifts,
//! each with its flag discipline.
use vstd::prelude::*;
use crate::carry;
use crate::console::{Console, Machine};
use crate::half_carry;
use crate::registers::Registers;

verus! {

#[derive(Clone, Copy, Debug, PartialEq, Eq, Structural)]
pub enum ArithOp {
    Add,
    Sub,
}

#[derive(Clone, Copy, Debug, PartialEq, Eq, Structural)]
pub enum LogicOp {
    And,
    Xor,
    Or,
}

/// The rotates and shifts, in the order of their prefixed opcodes.
#[derive(Clone, Copy, Debug, PartialEq, Eq, Structural)]
pub enum ShiftOp {
    Rlc,
    Rrc,
    Rl,
    Rr,
    Sla,
    Sra,
    Swap,
    Srl,
}

/// The registers after ADD/ADC (`op` is `Add`) or SUB/SBC (`Sub`) of
/// `operand` into A; `use_carry` makes it ADC or SBC.
pub open spec fn arith(r: Registers, op: ArithOp, use_carry: bool, operand: u8) -> Registers {
    let cin: u8 = if use_carry && r.cf {
        1
    } else {
        0
    };
    match op {
        ArithOp::Add => {
            let res = r.a.wrapping_add(operand).wrapping_add(cin);
            Registers {
                a: res,
                zf: res == 0,
                nf: false,
                hf: (r.a % 16) as int + (operand % 16) as int + cin as int >= 16,
                cf: r.a as int + operand as int + cin as int > 0xFF,
                ..r
            }
        },
        ArithOp::Sub => {
            let res = r.a.wrapping_sub(operand).wrapping_sub(cin);
            Registers {
                a: res,
                zf: res == 0,
                nf: true,
                hf: (r.a % 16) as int - (operand % 16) as int - (cin as int) < 0,
                cf: (r.a as int) - (operand as int) - (cin as int) < 0,
                ..r
            }
        },
    }
}

pub open spec fn logic_value(op: LogicOp, a: u8, operand: u8) -> u8 {
    match op {
        LogicOp::And => a & operand,
        LogicOp::Xor => a ^ operand,
        LogicOp::Or => a | operand,
    }
}

/// The registers after AND, XOR or OR of `operand` into A.
pub open spec fn logic(r: Registers, op: LogicOp, operand: u8) -> Registers {
    let res = logic_value(op, r.a, operand);
    Registers { a: res, ..r }.with_flags(res == 0, false, op == LogicOp::And, false)
}

/// The registers after CP with `operand`: the flags of SUB, A kept.
pub open spec fn compare(r: Registers, operand: u8) -> Registers {
    r.with_flags(
        r.a == operand,
        true,
        ((r.a % 16) as int) < ((operand % 16) as int),
        (r.a as int) < (operand as int),
    )
}

/// The byte that `op` makes of `v`, with carry flag `c` coming in.
pub open spec fn shifted(op: ShiftOp, v: u8, c: bool) -> u8 {
    match op {
        ShiftOp::Rlc => (v << 1u8) | (v >> 7u8),
        ShiftOp::Rrc => (v >> 1u8) | (v << 7u8),
        ShiftOp::Rl => (v << 1u8) | (if c {
            1u8
        } else {
            0u8
        }),
        ShiftOp::Rr => (v >> 1u8) | (if c {
            0x80u8
        } else {
            0u8
        }),
        ShiftOp::Sla => v << 1u8,
        ShiftOp::Sra => (v >> 1u8) | (v & 0x80),
        ShiftOp::Swap => (v << 4u8) | (v >> 4u8),
        ShiftOp::Srl => v >> 1u8,
    }
}

/// The carry that `op` leaves: the bit shifted out, none for SWAP.
pub open spec fn shifted_carry(op: ShiftOp, v: u8) -> bool {
    match op {
        ShiftOp::Rlc | ShiftOp::Rl | ShiftOp::Sla => v & 0x80 != 0,
        ShiftOp::Swap => false,
        _ => v & 1 != 0,
    }
}

/// The registers after ALU operation `sel` with `operand`, in the order of
/// the opcodes: ADD, ADC, SUB, SBC, AND, XOR, OR, CP.
pub open spec fn alu(r: Registers, sel: u8, operand: u8) -> Registers {
    if sel == 0 {
        arith(r, ArithOp::Add, false, operand)
    } else if sel == 1 {
        arith(r, ArithOp::Add, true, operand)
    } else if sel == 2 {
        arith(r, ArithOp::Sub, false, operand)
    } else if sel == 3 {
        arith(r, ArithOp::Sub, true, operand)
    } else if sel == 4 {
        logic(r, LogicOp::And, operand)
    } else if sel == 5 {
        logic(r, LogicOp::Xor, operand)
    } else if sel == 6 {
        logic(r, LogicOp::Or, operand)
    } else {
        compare(r, operand)
    }
}

/// The rotate or shift of a prefixed opcode below 0x40, by bits 5 to 3.
pub open spec fn shift_op_of(sel: u8) -> ShiftOp {
    if sel == 0 {
        ShiftOp::Rlc
    } else if sel == 1 {
        ShiftOp::Rrc
    } else if sel == 2 {
        ShiftOp::Rl
    } else if sel == 3 {
        ShiftOp::Rr
    } else if sel == 4 {
        ShiftOp::Sla
    } else if sel == 5 {
        ShiftOp::Sra
    } else if sel == 6 {
        ShiftOp::Swap
    } else {
        ShiftOp::Srl
    }
}

impl Machine {
    /// A prefixed rotate, shift or swap of operand `r8`: Z per result, N and
    /// H cleared, C as the operation leaves it.
    pub open spec fn shift_r8(self, op: ShiftOp, r8: u8) -> Machine {
        let v = self.r8(r8);
        let res = shifted(op, v, self.regs.cf);
        self.with_regs(self.regs.with_flags(res == 0, false, false, shifted_carry(op, v))).set_r8(
            r8,
            res,
        )
    }

    /// RLCA, RRCA, RLA, RRA: as the prefixed rotate of A, but Z cleared.
    pub open spec fn rotate_a(self, op: ShiftOp) -> Machine {
        let v = self.regs.a;
        let res = shifted(op, v, self.regs.cf);
        self.with_regs(
            Registers { a: res, ..self.regs.with_flags(false, false, false, shifted_carry(op, v)) },
        )
    }
}

/// ADD, ADC, SUB or SBC of `operand` into A.
pub fn arithm_a_operand(operand: u8, console: &mut Console, op: ArithOp, use_carry: bool)
    ensures
        final(console)@ == old(console)@.with_regs(arith(old(console).regs, op, use_carry, operand)),
{
    let cin: u8 = if use_carry && console.regs.cf {
        1
    } else {
        0
    };
    let a = console.regs.a;
    match op {
        ArithOp::Add => {
            let res = a.wrapping_add(operand).wrapping_add(cin);
            console.regs.a = res;
            console.regs.zf = res == 0;
            console.regs.nf = false;
            console.regs.hf = half_carry::add_8(a, operand, cin);
            console.regs.cf = carry::add_8(a, operand, cin);
        },
        ArithOp::Sub => {
            let res = a.wrapping_sub(operand).wrapping_sub(cin);
            console.regs.a = res;
            console.regs.zf = res == 0;
            console.regs.nf = true;
            console.regs.hf = half_carry::sub_8(a, operand, cin);
            console.regs.cf = carry::sub_8(a, operand, cin);
        },
    }
}

/// AND, XOR or OR of `operand` into A.
pub fn logic_a_operand(operand: u8, console: &mut Console, op: LogicOp)
    ensures
        final(console)@ == old(console)@.with_regs(logic(old(console).regs, op, operand)),
{
    let a = console.regs.a;
    let res = match op {
        LogicOp::And => a & operand,
        LogicOp::Xor => a ^ operand,
        LogicOp::Or => a | operand,
    };
    console.regs.a = res;
    console.regs.zf = res == 0;
    console.regs.nf = false;
    console.regs.hf = op == LogicOp::And;
    console.regs.cf = false;
}

/// CP: the flags of subtracting `operand` from A, with A kept.
pub fn cp_a_operand(operand: u8, console: &mut Console)
    ensures
        final(console)@ == old(console)@.with_regs(compare(old(console).regs, operand)),
{
    let a = console.regs.a;
    console.regs.zf = a == operand;
    console.regs.nf = true;
    console.regs.hf = half_carry::sub_8(a, operand, 0);
    console.regs.cf = carry::sub_8(a, operand, 0);
}

/// ALU operation `sel` (ADD, ADC, SUB, SBC, AND, XOR, OR, CP) with `operand`.
pub fn alu_a_operand(sel: u8, operand: u8, console: &mut Console)
    requires
        sel < 8,
    ensures
        final(console)@ == old(console)@.with_regs(alu(old(console).regs, sel, operand)),
{
    match sel {
        0 => arithm_a_operand(operand, console, ArithOp::Add, false),
        1 => arithm_a_operand(operand, console, ArithOp::Add, true),
        2 => arithm_a_operand(operand, console, ArithOp::Sub, false),
        3 => arithm_a_operand(operand, console, ArithOp::Sub, true),
        4 => logic_a_operand(operand, console, LogicOp::And),
        5 => logic_a_operand(operand, console, LogicOp::Xor),
        6 => logic_a_operand(operand, console, LogicOp::Or),
        _ => cp_a_operand(operand, console),
    }
}

/// The byte and the carry that `op` makes of `v` with carry `c` coming in.
pub fn shift_value(op: ShiftOp, v: u8, c: bool) -> (r: (u8, bool))
    ensures
        r == (shifted(op, v, c), shifted_carry(op, v)),
{
    match op {
        ShiftOp::Rlc => ((v << 1u8) | (v >> 7u8), v & 0x80 != 0),
        ShiftOp::Rrc => ((v >> 1u8) | (v << 7u8), v & 1 != 0),
        ShiftOp::Rl => (
            (v << 1u8) | (if c {
                1u8
            } else {
                0u8
            }),
            v & 0x80 != 0,
        ),
        ShiftOp::Rr => (
            (v >> 1u8) | (if c {
                0x80u8
            } else {
                0u8
            }),
            v & 1 != 0,
        ),
        ShiftOp::Sla => (v << 1u8, v & 0x80 != 0),
        ShiftOp::Sra => ((v >> 1u8) | (v & 0x80), v & 1 != 0),
        ShiftOp::Swap => ((v << 4u8) | (v >> 4u8), false),
        ShiftOp::Srl => (v >> 1u8, v & 1 != 0),
    }
}

/// A rotate (`op` one of RLC, RRC, RL, RR) of operand `r8`; `r8` of
/// `reg8::EA` is the unprefixed rotate of A, which clears Z.
pub fn rotate_operand(r8: u8, console: &mut Console, op: ShiftOp)
    requires
        old(console)@.wf(),
        r8 <= 8,
        op == ShiftOp::Rlc || op == ShiftOp::Rrc || op == ShiftOp::Rl || op == ShiftOp::Rr,
    ensures
        final(console)@ == if r8 == 8 {
            old(console)@.rotate_a(op)
        } else {
            old(console)@.shift_r8(op, r8)
        },
{
    let idx = if r8 == 8 {
        7
    } else {
        r8
    };
    let v = console.get_r8(idx);
    let (res, c) = shift_value(op, v, console.regs.cf);
    console.regs.zf = res == 0 && r8 != 8;
    console.regs.nf = false;
    console.regs.hf = false;
    console.regs.cf = c;
    console.set_r8(idx, res);
}

} // verus!
