//! Laws of the instruction set, stated over the console model.
use vstd::prelude::*;
use crate::bus::{cell_of, BusModel, BUS_SIZE};
use crate::common::{logic, LogicOp, ShiftOp};
use crate::console::Machine;
use crate::registers::{hi, join, lo, lemma_f_low_nibble, Registers};

verus! {

proof fn lemma_split(v: u16)
    ensures
        join(hi(v), lo(v)) == v,
{
    assert(((((v >> 8) as u8) as u16) << 8) | ((v as u8) as u16) == v) by (bit_vector);
}

proof fn lemma_join(h: u8, l: u8)
    ensures
        hi(join(h, l)) == h,
        lo(join(h, l)) == l,
{
    assert((((((h as u16) << 8) | (l as u16)) >> 8) as u8) == h) by (bit_vector);
    assert(((((h as u16) << 8) | (l as u16)) as u8) == l) by (bit_vector);
}

/// After any step the low four bits of F are zero.
pub proof fn lemma_step_f_low_nibble(m: Machine)
    ensures
        m.step().regs.f() & 0x0F == 0,
{
    lemma_f_low_nibble(m.step().regs);
}

/// PC stays within the sixteen-bit address space.
pub proof fn lemma_step_pc_in_range(m: Machine)
    ensures
        0 <= m.step().regs.pc < 0x10000,
{
}

/// A write to a locked region leaves the bus as it was.
pub proof fn lemma_locked_write(b: BusModel, addr: u16, v: u8)
    requires
        b.locked(addr),
    ensures
        b.write(addr, v) == b,
{
}

/// A push followed by a pop restores SP, so an even SP stays even; the
/// push changes only the two cells just below SP.
pub proof fn lemma_push_pop_sp(m: Machine, v: u16)
    requires
        m.wf(),
    ensures
        m.push16(v).pop16().regs.sp == m.regs.sp,
        m.regs.sp % 2 == 0 ==> m.push16(v).pop16().regs.sp % 2 == 0,
        m.push16(v).regs.sp == m.regs.sp.wrapping_sub(2),
        forall|i: int|
            0 <= i < BUS_SIZE && i != cell_of(m.regs.sp.wrapping_sub(1)) && i != cell_of(
                m.regs.sp.wrapping_sub(2),
            ) ==> #[trigger] m.push16(v).bus.mem[i] == m.bus.mem[i],
        m.regs.sp >= 2 ==> cell_of(m.regs.sp.wrapping_sub(1)) < m.regs.sp && cell_of(
            m.regs.sp.wrapping_sub(2),
        ) < m.regs.sp,
{
}

/// PUSH of a stack word followed by POP of the same word restores every
/// register, SP included, when the two stack bytes can be written; F comes
/// back as it was since its low nibble is always zero.
pub proof fn lemma_push_pop_identity(m: Machine, r16stk: u8)
    requires
        m.wf(),
        r16stk < 4,
        m.bus.writable(m.regs.sp.wrapping_sub(1)),
        m.bus.writable(m.regs.sp.wrapping_sub(2)),
    ensures
        m.push_r16stk(r16stk).pop_r16stk(r16stk).regs == m.regs,
{
    let v = m.regs.r16stk(r16stk);
    let p = m.push_r16stk(r16stk);
    let sp = m.regs.sp;
    let s1 = sp.wrapping_sub(1);
    let s2 = sp.wrapping_sub(2);
    assert(s1 == s2.wrapping_add(1));
    assert(cell_of(s1) != cell_of(s2));
    assert(p.regs.sp == s2);
    assert(p.read(s2) == lo(v));
    assert(p.read(s1) == hi(v));
    assert(p.top16() == join(hi(v), lo(v)));
    lemma_split(v);
    assert(p.top16() == v);
    let q = p.pop16();
    assert(q.regs.sp == sp);
    assert(q.regs == Registers { sp: sp, ..p.regs });
    let r = m.regs;
    if r16stk == 0 {
        lemma_join(r.b, r.c);
    } else if r16stk == 1 {
        lemma_join(r.d, r.e);
    } else if r16stk == 2 {
        lemma_join(r.h, r.l);
    } else {
        lemma_join(r.a, r.f());
        let (z, n, h, c) = (r.zf, r.nf, r.hf, r.cf);
        let f = r.f();
        assert(f == (if z {
            0x80u8
        } else {
            0u8
        }) | (if n {
            0x40u8
        } else {
            0u8
        }) | (if h {
            0x20u8
        } else {
            0u8
        }) | (if c {
            0x10u8
        } else {
            0u8
        }));
        assert((f & 0x80 != 0) == z && (f & 0x40 != 0) == n && (f & 0x20 != 0) == h && (f & 0x10
            != 0) == c) by (bit_vector)
            requires
                f == (if z {
                    0x80u8
                } else {
                    0u8
                }) | (if n {
                    0x40u8
                } else {
                    0u8
                }) | (if h {
                    0x20u8
                } else {
                    0u8
                }) | (if c {
                    0x10u8
                } else {
                    0u8
                }),
        ;
    }
}

/// INC of a byte operand followed by DEC restores the byte, leaves Z set iff
/// the byte is zero and H set iff its low nibble is 0xF, and keeps C.
pub proof fn lemma_inc_dec(m: Machine, r8: u8)
    requires
        m.wf(),
        r8 < 8,
        r8 == 6 ==> m.bus.writable(m.regs.hl()),
    ensures
        m.inc_r8(r8).dec_r8(r8).r8(r8) == m.r8(r8),
        m.inc_r8(r8).dec_r8(r8).regs.zf == (m.r8(r8) == 0),
        m.inc_r8(r8).dec_r8(r8).regs.hf == (m.r8(r8) % 16 == 15),
        m.inc_r8(r8).dec_r8(r8).regs.nf,
        m.inc_r8(r8).dec_r8(r8).regs.cf == m.regs.cf,
{
}

/// SWAP applied twice gives the byte back, with Z set iff the byte is zero
/// and N, H, C cleared.
pub proof fn lemma_swap_twice(m: Machine, r8: u8)
    requires
        m.wf(),
        r8 < 8,
    ensures
        m.shift_r8(ShiftOp::Swap, r8).shift_r8(ShiftOp::Swap, r8).r8(r8) == m.r8(r8),
        m.shift_r8(ShiftOp::Swap, r8).shift_r8(ShiftOp::Swap, r8).regs.zf == (m.r8(r8) == 0),
        !m.shift_r8(ShiftOp::Swap, r8).shift_r8(ShiftOp::Swap, r8).regs.nf,
        !m.shift_r8(ShiftOp::Swap, r8).shift_r8(ShiftOp::Swap, r8).regs.hf,
        !m.shift_r8(ShiftOp::Swap, r8).shift_r8(ShiftOp::Swap, r8).regs.cf,
{
    let x = m.r8(r8);
    let s = (x << 4u8) | (x >> 4u8);
    assert(((s << 4u8) | (s >> 4u8)) == x && (s == 0 <==> x == 0)) by (bit_vector)
        requires
            s == (x << 4u8) | (x >> 4u8),
    ;
}

/// XOR A,A clears A and sets Z; OR A,A keeps A and sets Z iff A is zero.
pub proof fn lemma_xor_or_self(r: Registers)
    ensures
        logic(r, LogicOp::Xor, r.a).a == 0,
        logic(r, LogicOp::Xor, r.a).zf,
        logic(r, LogicOp::Or, r.a).a == r.a,
        logic(r, LogicOp::Or, r.a).zf == (r.a == 0),
{
    let a = r.a;
    assert(a ^ a == 0 && a | a == a) by (bit_vector);
}

/// JR with offset 0xFE, placed at PC, jumps back to its own opcode and
/// writes nothing, so it runs again on the next step.
pub proof fn lemma_jr_tight_loop(m: Machine)
    requires
        m.wf(),
        !m.halted,
        !m.stopped,
        !m.halt_bug,
        !m.can_deliver(),
        m.imm8() == 0x18,
        m.read(m.regs.pc.wrapping_add(1)) == 0xFE,
    ensures
        m.step().regs.pc == m.regs.pc,
        m.step().bus.mem == m.bus.mem,
{
    reveal(Machine::execute_op);
    reveal(Machine::block_zero);
    let op: u8 = 0x18;
    assert(op & 0x0F == 0x08 && op & 0x07 == 0) by (bit_vector)
        requires
            op == 0x18,
    ;
    let e: u8 = 0xFE;
    assert(e as i8 as i16 == -2i16) by (bit_vector)
        requires
            e == 0xFE,
    ;
    assert(m.fetched().imm8() == 0xFE);
}

/// RST 0x38 (opcode 0xFF) pushes the address after it and jumps to 0x0038.
pub proof fn lemma_rst_38(m: Machine)
    requires
        m.wf(),
        !m.halted,
        !m.stopped,
        !m.halt_bug,
        !m.can_deliver(),
        m.imm8() == 0xFF,
    ensures
        m.step().regs.pc == 0x0038,
        m.step().regs.sp == m.regs.sp.wrapping_sub(2),
        m.bus.writable(m.regs.sp.wrapping_sub(1)) && m.bus.writable(m.regs.sp.wrapping_sub(2))
            ==> m.step().top16() == m.regs.pc.wrapping_add(1),
{
    reveal(Machine::execute_op);
    reveal(Machine::block_three);
    let op: u8 = 0xFF;
    assert(op & 0xC7 == 0xC7 && (op >> 3u8) & 7 == 7) by (bit_vector)
        requires
            op == 0xFF,
    ;
    let n = m.advance(1);
    let v = n.regs.pc;
    let p = n.push16(v);
    let sp = m.regs.sp;
    let s1 = sp.wrapping_sub(1);
    let s2 = sp.wrapping_sub(2);
    assert(s1 == s2.wrapping_add(1));
    if m.bus.writable(s1) && m.bus.writable(s2) {
        assert(cell_of(s1) != cell_of(s2));
        assert(p.read(s2) == lo(v));
        assert(p.read(s1) == hi(v));
        lemma_split(v);
    }
}

} // verus!
