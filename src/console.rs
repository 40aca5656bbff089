//! The console: registers, bus and the CPU's interrupt and halt state, with
//! the operations that instructions are built from.
use vstd::prelude::*;
use crate::bus::{AddrBus, BusModel, BUS_SIZE};
use crate::flag::is_flag;
use crate::registers::{hi, join, lo, Registers};

verus! {

/// The console as a value.
pub struct Machine {
    pub regs: Registers,
    pub bus: BusModel,
    /// EI has run and IME is to be set after the next instruction.
    pub pending_ei: bool,
    /// HALT is waiting for a pending interrupt.
    pub halted: bool,
    /// HALT ran with IME clear and an interrupt pending: the next opcode byte
    /// is read without advancing PC.
    pub halt_bug: bool,
    /// STOP is waiting for a joypad interrupt.
    pub stopped: bool,
}

impl Machine {
    pub open spec fn wf(self) -> bool {
        self.bus.wf()
    }

    pub open spec fn read(self, addr: u16) -> u8 {
        self.bus.read(addr)
    }

    pub open spec fn write(self, addr: u16, v: u8) -> Machine {
        Machine { bus: self.bus.write(addr, v), ..self }
    }

    pub open spec fn with_regs(self, r: Registers) -> Machine {
        Machine { regs: r, ..self }
    }

    /// The operand of `r8` index `idx`: a register, or the byte at HL.
    pub open spec fn r8(self, idx: u8) -> u8 {
        if idx == 6 {
            self.read(self.regs.hl())
        } else {
            self.regs.r8(idx)
        }
    }

    pub open spec fn set_r8(self, idx: u8, v: u8) -> Machine {
        if idx == 6 {
            self.write(self.regs.hl(), v)
        } else {
            self.with_regs(self.regs.with_r8(idx, v))
        }
    }

    /// The address that `r16mem` index `idx` names: BC, DE, HL+, HL-.
    pub open spec fn r16mem_addr(self, idx: u8) -> u16 {
        if idx == 0 {
            self.regs.bc()
        } else if idx == 1 {
            self.regs.de()
        } else {
            self.regs.hl()
        }
    }

    /// HL moved after an `r16mem` access.
    pub open spec fn r16mem_post(self, idx: u8) -> Machine {
        if idx == 2 {
            self.with_regs(self.regs.with_hl(self.regs.hl().wrapping_add(1)))
        } else if idx == 3 {
            self.with_regs(self.regs.with_hl(self.regs.hl().wrapping_sub(1)))
        } else {
            self
        }
    }

    pub open spec fn set_pc(self, v: u16) -> Machine {
        self.with_regs(Registers { pc: v, ..self.regs })
    }

    /// PC moved forward by `n` bytes.
    pub open spec fn advance(self, n: u16) -> Machine {
        self.set_pc(self.regs.pc.wrapping_add(n))
    }

    /// The byte at PC.
    pub open spec fn imm8(self) -> u8 {
        self.read(self.regs.pc)
    }

    /// The little-endian word at PC.
    pub open spec fn imm16(self) -> u16 {
        join(self.read(self.regs.pc.wrapping_add(1)), self.read(self.regs.pc))
    }

    /// SP decremented, then `v` written at SP.
    pub open spec fn push8(self, v: u8) -> Machine {
        let sp = self.regs.sp.wrapping_sub(1);
        self.with_regs(Registers { sp: sp, ..self.regs }).write(sp, v)
    }

    /// The high byte pushed first, then the low byte.
    pub open spec fn push16(self, v: u16) -> Machine {
        self.push8(hi(v)).push8(lo(v))
    }

    /// The word at SP, low byte first.
    pub open spec fn top16(self) -> u16 {
        join(self.read(self.regs.sp.wrapping_add(1)), self.read(self.regs.sp))
    }

    /// SP after the word at SP is popped.
    pub open spec fn pop16(self) -> Machine {
        self.with_regs(Registers { sp: self.regs.sp.wrapping_add(2), ..self.regs })
    }

    pub open spec fn set_ime(self, v: u8) -> Machine {
        Machine { bus: BusModel { ime: v, ..self.bus }, ..self }
    }

    /// The interrupts both requested and enabled, as a five-bit mask.
    pub open spec fn pending(self) -> u8 {
        self.bus.ie() & self.bus.iflag() & 0x1F
    }
}

pub struct Console {
    pub regs: Registers,
    pub bus: AddrBus,
    pub pending_ei: bool,
    pub halted: bool,
    pub halt_bug: bool,
    pub stopped: bool,
}

impl View for Console {
    type V = Machine;

    open spec fn view(&self) -> Machine {
        Machine {
            regs: self.regs,
            bus: self.bus@,
            pending_ei: self.pending_ei,
            halted: self.halted,
            halt_bug: self.halt_bug,
            stopped: self.stopped,
        }
    }
}

impl Console {
    pub fn get_mem(&self, addr: usize) -> (r: u8)
        requires
            self@.wf(),
            addr < BUS_SIZE,
        ensures
            r == self@.read(addr as u16),
    {
        self.bus.get(addr as u16)
    }

    pub fn set_mem(&mut self, addr: usize, val: u8)
        requires
            old(self)@.wf(),
            addr < BUS_SIZE,
        ensures
            final(self)@ == old(self)@.write(addr as u16, val),
    {
        self.bus.set(addr as u16, val);
    }

    pub fn get_ip(&self) -> (r: u16)
        ensures
            r == self.regs.pc,
    {
        self.regs.pc
    }

    pub fn set_ip(&mut self, val: u16)
        ensures
            final(self)@ == old(self)@.set_pc(val),
    {
        self.regs.pc = val;
    }

    /// The byte at PC; PC moves past it.
    pub fn fetch_byte(&mut self) -> (r: u8)
        requires
            old(self)@.wf(),
        ensures
            r == old(self)@.imm8(),
            final(self)@ == old(self)@.advance(1),
    {
        let r = self.bus.get(self.regs.pc);
        self.regs.pc = self.regs.pc.wrapping_add(1);
        r
    }

    /// The little-endian word at PC; PC moves past it.
    pub fn fetch_two_bytes(&mut self) -> (r: u16)
        requires
            old(self)@.wf(),
        ensures
            r == old(self)@.imm16(),
            final(self)@ == old(self)@.advance(2),
    {
        let low = self.bus.get(self.regs.pc);
        let high = self.bus.get(self.regs.pc.wrapping_add(1));
        self.regs.pc = self.regs.pc.wrapping_add(2);
        ((high as u16) << 8) | (low as u16)
    }

    /// Moves PC by `amount` read as a two's complement byte.
    pub fn move_ip(&mut self, amount: u8)
        ensures
            final(self)@ == old(self)@.set_pc(old(self).regs.pc.wrapping_add_signed(amount as i8 as i16)),
    {
        self.regs.pc = self.regs.pc.wrapping_add_signed(amount as i8 as i16);
    }

    /// The flag byte F.
    pub fn get_flags(&self) -> (r: u8)
        ensures
            r == self.regs.f(),
    {
        (if self.regs.zf {
            0x80u8
        } else {
            0u8
        }) | (if self.regs.nf {
            0x40u8
        } else {
            0u8
        }) | (if self.regs.hf {
            0x20u8
        } else {
            0u8
        }) | (if self.regs.cf {
            0x10u8
        } else {
            0u8
        })
    }

    pub fn get_r8(&self, idx: u8) -> (r: u8)
        requires
            self@.wf(),
            idx < 8,
        ensures
            r == self@.r8(idx),
    {
        match idx {
            0 => self.regs.b,
            1 => self.regs.c,
            2 => self.regs.d,
            3 => self.regs.e,
            4 => self.regs.h,
            5 => self.regs.l,
            6 => self.bus.get(((self.regs.h as u16) << 8) | (self.regs.l as u16)),
            _ => self.regs.a,
        }
    }

    pub fn set_r8(&mut self, idx: u8, val: u8)
        requires
            old(self)@.wf(),
            idx < 8,
        ensures
            final(self)@ == old(self)@.set_r8(idx, val),
    {
        match idx {
            0 => self.regs.b = val,
            1 => self.regs.c = val,
            2 => self.regs.d = val,
            3 => self.regs.e = val,
            4 => self.regs.h = val,
            5 => self.regs.l = val,
            6 => {
                let addr = ((self.regs.h as u16) << 8) | (self.regs.l as u16);
                self.bus.set(addr, val);
            },
            _ => self.regs.a = val,
        }
    }

    pub fn get_r16(&self, idx: u8) -> (r: u16)
        requires
            idx < 4,
        ensures
            r == self.regs.r16(idx),
    {
        match idx {
            0 => ((self.regs.b as u16) << 8) | (self.regs.c as u16),
            1 => ((self.regs.d as u16) << 8) | (self.regs.e as u16),
            2 => ((self.regs.h as u16) << 8) | (self.regs.l as u16),
            _ => self.regs.sp,
        }
    }

    pub fn set_r16(&mut self, idx: u8, val: u16)
        requires
            idx < 4,
        ensures
            final(self)@ == old(self)@.with_regs(old(self).regs.with_r16(idx, val)),
    {
        match idx {
            0 => {
                self.regs.b = (val >> 8) as u8;
                self.regs.c = val as u8;
            },
            1 => {
                self.regs.d = (val >> 8) as u8;
                self.regs.e = val as u8;
            },
            2 => {
                self.regs.h = (val >> 8) as u8;
                self.regs.l = val as u8;
            },
            _ => self.regs.sp = val,
        }
    }

    pub fn get_r16stk(&self, idx: u8) -> (r: u16)
        requires
            idx < 4,
        ensures
            r == self.regs.r16stk(idx),
    {
        if idx == 3 {
            ((self.regs.a as u16) << 8) | (self.get_flags() as u16)
        } else {
            self.get_r16(idx)
        }
    }

    /// Sets a stack word; for AF the low nibble of `val` is dropped.
    pub fn set_r16stk(&mut self, idx: u8, val: u16)
        requires
            idx < 4,
        ensures
            final(self)@ == old(self)@.with_regs(old(self).regs.with_r16stk(idx, val)),
    {
        if idx == 3 {
            self.regs.a = (val >> 8) as u8;
            let f = val as u8;
            self.regs.zf = f & 0x80 != 0;
            self.regs.nf = f & 0x40 != 0;
            self.regs.hf = f & 0x20 != 0;
            self.regs.cf = f & 0x10 != 0;
        } else {
            self.set_r16(idx, val);
        }
    }

    /// The address of an `r16mem` operand; HL+ and HL- move HL after use.
    pub fn get_r16mem(&mut self, idx: u8) -> (r: u16)
        requires
            idx < 4,
        ensures
            r == old(self)@.r16mem_addr(idx),
            final(self)@ == old(self)@.r16mem_post(idx),
    {
        match idx {
            0 => self.get_r16(0),
            1 => self.get_r16(1),
            2 => {
                let hl = self.get_r16(2);
                self.set_r16(2, hl.wrapping_add(1));
                hl
            },
            _ => {
                let hl = self.get_r16(2);
                self.set_r16(2, hl.wrapping_sub(1));
                hl
            },
        }
    }

    pub fn is_flag_set(&self, flag: u8) -> (r: bool)
        requires
            is_flag(flag),
        ensures
            r == self.regs.flag(flag),
    {
        match flag {
            0x80 => self.regs.zf,
            0x40 => self.regs.nf,
            0x20 => self.regs.hf,
            _ => self.regs.cf,
        }
    }

    pub fn clear_or_set_flag(&mut self, should_set: bool, flag: u8)
        requires
            is_flag(flag),
        ensures
            final(self)@ == old(self)@.with_regs(old(self).regs.with_flag(flag, should_set)),
    {
        match flag {
            0x80 => self.regs.zf = should_set,
            0x40 => self.regs.nf = should_set,
            0x20 => self.regs.hf = should_set,
            _ => self.regs.cf = should_set,
        }
    }

    pub fn set_flag(&mut self, flag: u8)
        requires
            is_flag(flag),
        ensures
            final(self)@ == old(self)@.with_regs(old(self).regs.with_flag(flag, true)),
    {
        self.clear_or_set_flag(true, flag);
    }

    pub fn clear_flag(&mut self, flag: u8)
        requires
            is_flag(flag),
        ensures
            final(self)@ == old(self)@.with_regs(old(self).regs.with_flag(flag, false)),
    {
        self.clear_or_set_flag(false, flag);
    }

    /// Sets each flag of `flags` to `v`; every other field is kept.
    fn assign_flags(&mut self, flags: &[u8], v: bool)
        requires
            forall|i: int| 0 <= i < flags@.len() ==> is_flag(#[trigger] flags@[i]),
        ensures
            final(self)@ == old(self)@.with_regs(final(self).regs),
            final(self).regs.sp == old(self).regs.sp && final(self).regs.pc == old(self).regs.pc,
            final(self).regs.a == old(self).regs.a && final(self).regs.b == old(self).regs.b
                && final(self).regs.c == old(self).regs.c && final(self).regs.d == old(self).regs.d
                && final(self).regs.e == old(self).regs.e && final(self).regs.h == old(self).regs.h
                && final(self).regs.l == old(self).regs.l,
            forall|f: u8|
                is_flag(f) ==> #[trigger] final(self).regs.flag(f) == if flags@.contains(f) {
                    v
                } else {
                    old(self).regs.flag(f)
                },
    {
        let mut i: usize = 0;
        while i < flags.len()
            invariant
                0 <= i <= flags@.len(),
                forall|j: int| 0 <= j < flags@.len() ==> is_flag(#[trigger] flags@[j]),
                self@ == old(self)@.with_regs(self.regs),
                self.regs.sp == old(self).regs.sp && self.regs.pc == old(self).regs.pc,
                self.regs.a == old(self).regs.a && self.regs.b == old(self).regs.b
                    && self.regs.c == old(self).regs.c && self.regs.d == old(self).regs.d
                    && self.regs.e == old(self).regs.e && self.regs.h == old(self).regs.h
                    && self.regs.l == old(self).regs.l,
                forall|f: u8|
                    is_flag(f) ==> #[trigger] self.regs.flag(f) == if flags@.subrange(
                        0,
                        i as int,
                    ).contains(f) {
                        v
                    } else {
                        old(self).regs.flag(f)
                    },
            decreases flags@.len() - i,
        {
            let f = flags[i];
            let ghost before = self.regs;
            self.clear_or_set_flag(v, f);
            proof {
                assert forall|g: u8| is_flag(g) implies #[trigger] self.regs.flag(g) == if g == f {
                    v
                } else {
                    before.flag(g)
                } by {}
                let prev = flags@.subrange(0, i as int);
                let next = flags@.subrange(0, i + 1);
                assert(next =~= prev.push(f));
                assert forall|g: u8| #[trigger] next.contains(g) <==> (prev.contains(g) || g == f) by {
                    if prev.contains(g) {
                        let k = choose|k: int| 0 <= k < prev.len() && prev[k] == g;
                        assert(next[k] == g);
                    }
                    if g == f {
                        assert(next[i as int] == g);
                    }
                    if next.contains(g) {
                        let k = choose|k: int| 0 <= k < next.len() && next[k] == g;
                        if k < i {
                            assert(prev[k] == g);
                        }
                    }
                }
            }
            i = i + 1;
        }
        proof {
            assert(flags@.subrange(0, flags@.len() as int) =~= flags@);
        }
    }

    /// Clears each flag of `flags`.
    pub fn clear_flags(&mut self, flags: &[u8])
        requires
            forall|i: int| 0 <= i < flags@.len() ==> is_flag(#[trigger] flags@[i]),
        ensures
            final(self)@ == old(self)@.with_regs(final(self).regs),
            final(self).regs.sp == old(self).regs.sp && final(self).regs.pc == old(self).regs.pc,
            final(self).regs.a == old(self).regs.a && final(self).regs.b == old(self).regs.b
                && final(self).regs.c == old(self).regs.c && final(self).regs.d == old(self).regs.d
                && final(self).regs.e == old(self).regs.e && final(self).regs.h == old(self).regs.h
                && final(self).regs.l == old(self).regs.l,
            forall|f: u8|
                is_flag(f) ==> #[trigger] final(self).regs.flag(f) == if flags@.contains(f) {
                    false
                } else {
                    old(self).regs.flag(f)
                },
    {
        self.assign_flags(flags, false);
    }

    /// Sets each flag of `flags`.
    pub fn set_flags(&mut self, flags: &[u8])
        requires
            forall|i: int| 0 <= i < flags@.len() ==> is_flag(#[trigger] flags@[i]),
        ensures
            final(self)@ == old(self)@.with_regs(final(self).regs),
            final(self).regs.sp == old(self).regs.sp && final(self).regs.pc == old(self).regs.pc,
            final(self).regs.a == old(self).regs.a && final(self).regs.b == old(self).regs.b
                && final(self).regs.c == old(self).regs.c && final(self).regs.d == old(self).regs.d
                && final(self).regs.e == old(self).regs.e && final(self).regs.h == old(self).regs.h
                && final(self).regs.l == old(self).regs.l,
            forall|f: u8|
                is_flag(f) ==> #[trigger] final(self).regs.flag(f) == if flags@.contains(f) {
                    true
                } else {
                    old(self).regs.flag(f)
                },
    {
        self.assign_flags(flags, true);
    }

    pub fn is_condition_met(&self, cc: u8) -> (r: bool)
        requires
            cc < 4,
        ensures
            r == self.regs.cond(cc),
    {
        match cc {
            0 => !self.regs.zf,
            1 => self.regs.zf,
            2 => !self.regs.cf,
            _ => self.regs.cf,
        }
    }

    /// Sets IME: 0 disables, any other value enables.
    pub fn set_ime(&mut self, val: u8)
        ensures
            final(self)@ == old(self)@.set_ime(
                if val == 0 {
                    0
                } else {
                    1
                },
            ),
    {
        self.bus.ime = if val == 0 {
            0
        } else {
            1
        };
    }

    fn stk_push8(&mut self, val: u8)
        requires
            old(self)@.wf(),
        ensures
            final(self)@ == old(self)@.push8(val),
    {
        let sp = self.regs.sp.wrapping_sub(1);
        self.regs.sp = sp;
        self.bus.set(sp, val);
    }

    fn stk_pop8(&mut self) -> (r: u8)
        requires
            old(self)@.wf(),
        ensures
            r == old(self)@.read(old(self).regs.sp),
            final(self)@ == old(self)@.with_regs(
                Registers { sp: old(self).regs.sp.wrapping_add(1), ..old(self).regs },
            ),
    {
        let r = self.bus.get(self.regs.sp);
        self.regs.sp = self.regs.sp.wrapping_add(1);
        r
    }

    /// Pushes `addr`, high byte first.
    pub fn stk_push16(&mut self, addr: u16)
        requires
            old(self)@.wf(),
        ensures
            final(self)@ == old(self)@.push16(addr),
    {
        self.stk_push8((addr >> 8) as u8);
        self.stk_push8(addr as u8);
    }

    /// Pops a word, low byte first.
    pub fn stk_pop16(&mut self) -> (r: u16)
        requires
            old(self)@.wf(),
        ensures
            r == old(self)@.top16(),
            final(self)@ == old(self)@.pop16(),
    {
        let low = self.stk_pop8();
        let high = self.stk_pop8();
        ((high as u16) << 8) | (low as u16)
    }
}

} // verus!
