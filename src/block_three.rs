//! Opcodes 0xC0 to 0xFF: ALU with an immediate, returns, jumps, calls, RST,
//! PUSH and POP, high-page and absolute loads of A, SP arithmetic, DI and EI.
use vstd::prelude::*;
use crate::common::{alu, alu_a_operand};
use crate::console::{Console, Machine};
use crate::registers::Registers;

verus! {

/// Opcodes that no instruction has.
pub open spec fn is_illegal(instr: u8) -> bool {
    instr == 0xD3 || instr == 0xDB || instr == 0xDD || instr == 0xE3 || instr == 0xE4 || instr
        == 0xEB || instr == 0xEC || instr == 0xED || instr == 0xF4 || instr == 0xFC || instr
        == 0xFD
}

pub fn illegal(instr: u8) -> (r: bool)
    ensures
        r == is_illegal(instr),
{
    instr == 0xD3 || instr == 0xDB || instr == 0xDD || instr == 0xE3 || instr == 0xE4 || instr
        == 0xEB || instr == 0xEC || instr == 0xED || instr == 0xF4 || instr == 0xFC || instr
        == 0xFD
}

impl Machine {
    pub open spec fn alu_imm8(self, sel: u8) -> Machine {
        let m = self.advance(1);
        m.with_regs(alu(m.regs, sel, self.imm8()))
    }

    pub open spec fn ret(self) -> Machine {
        self.pop16().set_pc(self.top16())
    }

    pub open spec fn ret_cond(self, cc: u8) -> Machine {
        if self.regs.cond(cc) {
            self.ret()
        } else {
            self
        }
    }

    pub open spec fn reti(self) -> Machine {
        self.ret().set_ime(1)
    }

    pub open spec fn jp_imm16(self) -> Machine {
        self.set_pc(self.imm16())
    }

    pub open spec fn jp_cc_imm16(self, cc: u8) -> Machine {
        if self.regs.cond(cc) {
            self.jp_imm16()
        } else {
            self.advance(2)
        }
    }

    pub open spec fn jp_hl(self) -> Machine {
        self.set_pc(self.regs.hl())
    }

    /// CALL: the address after the operand is pushed, then PC is set.
    pub open spec fn call_imm16(self) -> Machine {
        let m = self.advance(2);
        m.push16(m.regs.pc).set_pc(self.imm16())
    }

    pub open spec fn call_cc_imm16(self, cc: u8) -> Machine {
        if self.regs.cond(cc) {
            self.call_imm16()
        } else {
            self.advance(2)
        }
    }

    /// RST: PC is pushed, then set to eight times `tgt3`.
    pub open spec fn rst_tgt3(self, tgt3: u8) -> Machine {
        self.push16(self.regs.pc).set_pc(((tgt3 as u16) * 8) as u16)
    }

    pub open spec fn pop_r16stk(self, r16stk: u8) -> Machine {
        let m = self.pop16();
        m.with_regs(m.regs.with_r16stk(r16stk, self.top16()))
    }

    pub open spec fn push_r16stk(self, r16stk: u8) -> Machine {
        self.push16(self.regs.r16stk(r16stk))
    }

    pub open spec fn ldh_c_a(self) -> Machine {
        self.write((0xFF00u16 + self.regs.c as u16) as u16, self.regs.a)
    }

    pub open spec fn ldh_imm8_a(self) -> Machine {
        self.advance(1).write((0xFF00u16 + self.imm8() as u16) as u16, self.regs.a)
    }

    pub open spec fn ld_imm16_a(self) -> Machine {
        self.advance(2).write(self.imm16(), self.regs.a)
    }

    pub open spec fn load_a(self, addr: u16) -> Machine {
        self.with_regs(Registers { a: self.read(addr), ..self.regs })
    }

    pub open spec fn ldh_a_c(self) -> Machine {
        self.load_a((0xFF00u16 + self.regs.c as u16) as u16)
    }

    pub open spec fn ldh_a_imm8(self) -> Machine {
        self.advance(1).load_a((0xFF00u16 + self.imm8() as u16) as u16)
    }

    pub open spec fn ld_a_imm16(self) -> Machine {
        self.advance(2).load_a(self.imm16())
    }

    /// SP plus the signed byte `e`, with Z and N cleared and H and C those of
    /// adding `e` to the low byte of SP.
    pub open spec fn sp_plus(self, e: u8) -> (u16, Registers) {
        let sp = self.regs.sp;
        (
            sp.wrapping_add_signed(e as i8 as i16),
            self.regs.with_flags(
                false,
                false,
                (sp % 16) as int + (e % 16) as int >= 16,
                (sp % 256) as int + e as int >= 256,
            ),
        )
    }

    pub open spec fn add_sp_imm8(self) -> Machine {
        let (v, r) = self.sp_plus(self.imm8());
        Machine { regs: Registers { sp: v, ..r }, ..self }.advance(1)
    }

    pub open spec fn ld_hl_sp_imm8(self) -> Machine {
        let (v, r) = self.sp_plus(self.imm8());
        Machine { regs: r.with_hl(v), ..self }.advance(1)
    }

    pub open spec fn ld_sp_hl(self) -> Machine {
        self.with_regs(Registers { sp: self.regs.hl(), ..self.regs })
    }

    pub open spec fn ei(self) -> Machine {
        Machine { pending_ei: true, ..self }
    }

    /// An opcode of block three other than 0xCB, PC already past it.
    #[verifier::opaque]
    pub open spec fn block_three(self, instr: u8) -> Machine {
        let cc = (instr >> 3u8) & 3;
        let tgt3 = (instr >> 3u8) & 7;
        let r16stk = (instr >> 4u8) & 3;
        if instr & 0xC7 == 0xC6 {
            self.alu_imm8(tgt3)
        } else if instr & 0xC7 == 0xC7 {
            self.rst_tgt3(tgt3)
        } else if instr & 0xCF == 0xC1 {
            self.pop_r16stk(r16stk)
        } else if instr & 0xCF == 0xC5 {
            self.push_r16stk(r16stk)
        } else if instr == 0xC9 {
            self.ret()
        } else if instr & 0xE7 == 0xC0 {
            self.ret_cond(cc)
        } else if instr == 0xD9 {
            self.reti()
        } else if instr & 0xE7 == 0xC2 {
            self.jp_cc_imm16(cc)
        } else if instr == 0xC3 {
            self.jp_imm16()
        } else if instr == 0xE9 {
            self.jp_hl()
        } else if instr == 0xCD {
            self.call_imm16()
        } else if instr & 0xE7 == 0xC4 {
            self.call_cc_imm16(cc)
        } else if instr == 0xE2 {
            self.ldh_c_a()
        } else if instr == 0xE0 {
            self.ldh_imm8_a()
        } else if instr == 0xEA {
            self.ld_imm16_a()
        } else if instr == 0xF2 {
            self.ldh_a_c()
        } else if instr == 0xF0 {
            self.ldh_a_imm8()
        } else if instr == 0xFA {
            self.ld_a_imm16()
        } else if instr == 0xE8 {
            self.add_sp_imm8()
        } else if instr == 0xF8 {
            self.ld_hl_sp_imm8()
        } else if instr == 0xF9 {
            self.ld_sp_hl()
        } else if instr == 0xF3 {
            self.set_ime(0)
        } else {
            self.ei()
        }
    }
}

fn alu_imm8(sel: u8, console: &mut Console)
    requires
        old(console)@.wf(),
        sel < 8,
    ensures
        final(console)@ == old(console)@.alu_imm8(sel),
{
    let imm8 = console.fetch_byte();
    alu_a_operand(sel, imm8, console);
}

fn ret(console: &mut Console)
    requires
        old(console)@.wf(),
    ensures
        final(console)@ == old(console)@.ret(),
{
    let ip = console.stk_pop16();
    console.set_ip(ip);
}

fn ret_cond(cc: u8, console: &mut Console)
    requires
        old(console)@.wf(),
        cc < 4,
    ensures
        final(console)@ == old(console)@.ret_cond(cc),
{
    if console.is_condition_met(cc) {
        ret(console);
    }
}

fn reti(console: &mut Console)
    requires
        old(console)@.wf(),
    ensures
        final(console)@ == old(console)@.reti(),
{
    ret(console);
    console.set_ime(1);
}

fn jp_cc_imm16(cc: u8, console: &mut Console)
    requires
        old(console)@.wf(),
        cc < 4,
    ensures
        final(console)@ == old(console)@.jp_cc_imm16(cc),
{
    let imm16 = console.fetch_two_bytes();
    if console.is_condition_met(cc) {
        console.set_ip(imm16);
    }
}

fn jp_imm16(console: &mut Console)
    requires
        old(console)@.wf(),
    ensures
        final(console)@ == old(console)@.jp_imm16(),
{
    let imm16 = console.fetch_two_bytes();
    console.set_ip(imm16);
}

fn jp_hl(console: &mut Console)
    ensures
        final(console)@ == old(console)@.jp_hl(),
{
    let hl = console.get_r16(2);
    console.set_ip(hl);
}

/// Pushes the address of the next instruction.
fn setup_call(console: &mut Console)
    requires
        old(console)@.wf(),
    ensures
        final(console)@ == old(console)@.push16(old(console).regs.pc),
{
    let next = console.get_ip();
    console.stk_push16(next);
}

fn call_imm16(console: &mut Console)
    requires
        old(console)@.wf(),
    ensures
        final(console)@ == old(console)@.call_imm16(),
{
    let imm16 = console.fetch_two_bytes();
    setup_call(console);
    console.set_ip(imm16);
}

fn call_cc_imm16(cc: u8, console: &mut Console)
    requires
        old(console)@.wf(),
        cc < 4,
    ensures
        final(console)@ == old(console)@.call_cc_imm16(cc),
{
    let imm16 = console.fetch_two_bytes();
    if console.is_condition_met(cc) {
        setup_call(console);
        console.set_ip(imm16);
    }
}

fn rst_tgt3(tgt3: u8, console: &mut Console)
    requires
        old(console)@.wf(),
        tgt3 < 8,
    ensures
        final(console)@ == old(console)@.rst_tgt3(tgt3),
{
    setup_call(console);
    console.set_ip((tgt3 as u16) * 8);
}

fn pop_r16stk(r16stk: u8, console: &mut Console)
    requires
        old(console)@.wf(),
        r16stk < 4,
    ensures
        final(console)@ == old(console)@.pop_r16stk(r16stk),
{
    let popped = console.stk_pop16();
    console.set_r16stk(r16stk, popped);
}

fn push_r16stk(r16stk: u8, console: &mut Console)
    requires
        old(console)@.wf(),
        r16stk < 4,
    ensures
        final(console)@ == old(console)@.push_r16stk(r16stk),
{
    let v = console.get_r16stk(r16stk);
    console.stk_push16(v);
}

fn ldh_c_a(console: &mut Console)
    requires
        old(console)@.wf(),
    ensures
        final(console)@ == old(console)@.ldh_c_a(),
{
    let a = console.regs.a;
    let c = console.regs.c;
    console.bus.set(0xFF00u16 + c as u16, a);
}

fn ldh_imm8_a(console: &mut Console)
    requires
        old(console)@.wf(),
    ensures
        final(console)@ == old(console)@.ldh_imm8_a(),
{
    let imm8 = console.fetch_byte();
    let a = console.regs.a;
    console.bus.set(0xFF00u16 + imm8 as u16, a);
}

fn ld_imm16_a(console: &mut Console)
    requires
        old(console)@.wf(),
    ensures
        final(console)@ == old(console)@.ld_imm16_a(),
{
    let imm16 = console.fetch_two_bytes();
    let a = console.regs.a;
    console.bus.set(imm16, a);
}

fn load_mem_into_a(addr: u16, console: &mut Console)
    requires
        old(console)@.wf(),
    ensures
        final(console)@ == old(console)@.load_a(addr),
{
    console.regs.a = console.bus.get(addr);
}

fn ldh_a_c(console: &mut Console)
    requires
        old(console)@.wf(),
    ensures
        final(console)@ == old(console)@.ldh_a_c(),
{
    let c = console.regs.c;
    load_mem_into_a(0xFF00u16 + c as u16, console);
}

fn ldh_a_imm8(console: &mut Console)
    requires
        old(console)@.wf(),
    ensures
        final(console)@ == old(console)@.ldh_a_imm8(),
{
    let imm8 = console.fetch_byte();
    load_mem_into_a(0xFF00u16 + imm8 as u16, console);
}

fn ld_a_imm16(console: &mut Console)
    requires
        old(console)@.wf(),
    ensures
        final(console)@ == old(console)@.ld_a_imm16(),
{
    let imm16 = console.fetch_two_bytes();
    load_mem_into_a(imm16, console);
}

/// SP plus the signed byte at PC, with the flags set as ADD SP does; PC moves
/// past the byte.
fn add_sp_imm8_logless(console: &mut Console) -> (r: u16)
    requires
        old(console)@.wf(),
    ensures
        r == old(console)@.sp_plus(old(console)@.imm8()).0,
        final(console)@ == (Machine {
            regs: old(console)@.sp_plus(old(console)@.imm8()).1,
            ..old(console)@
        }).advance(1),
{
    let imm8 = console.fetch_byte();
    let sp = console.regs.sp;
    console.regs.zf = false;
    console.regs.nf = false;
    console.regs.hf = (sp % 16) as u8 + imm8 % 16 >= 16;
    console.regs.cf = (sp % 256) + imm8 as u16 >= 256;
    sp.wrapping_add_signed(imm8 as i8 as i16)
}

fn add_sp_imm8(console: &mut Console)
    requires
        old(console)@.wf(),
    ensures
        final(console)@ == old(console)@.add_sp_imm8(),
{
    let v = add_sp_imm8_logless(console);
    console.regs.sp = v;
}

fn ld_hl_sp_imm8(console: &mut Console)
    requires
        old(console)@.wf(),
    ensures
        final(console)@ == old(console)@.ld_hl_sp_imm8(),
{
    let v = add_sp_imm8_logless(console);
    console.set_r16(2, v);
}

fn ld_sp_hl(console: &mut Console)
    ensures
        final(console)@ == old(console)@.ld_sp_hl(),
{
    let hl = console.get_r16(2);
    console.regs.sp = hl;
}

fn di(console: &mut Console)
    ensures
        final(console)@ == old(console)@.set_ime(0),
{
    console.set_ime(0);
}

/// EI: IME is set after the next instruction.
fn ei(console: &mut Console)
    ensures
        final(console)@ == old(console)@.ei(),
{
    console.pending_ei = true;
}

/// Executes `instr`, an opcode of block three other than the 0xCB prefix;
/// PC is already past it.
pub fn dispatch(console: &mut Console, instr: u8)
    requires
        old(console)@.wf(),
        0xC0 <= instr,
        instr != 0xCB,
        !is_illegal(instr),
    ensures
        final(console)@ == old(console)@.block_three(instr),
        final(console)@.wf(),
{
    reveal(Machine::block_three);
    let cc: u8 = (instr >> 3u8) & 3;
    let tgt3: u8 = (instr >> 3u8) & 7;
    let r16stk: u8 = (instr >> 4u8) & 3;
    assert(cc < 4 && tgt3 < 8 && r16stk < 4) by (bit_vector)
        requires
            cc == (instr >> 3u8) & 3,
            tgt3 == (instr >> 3u8) & 7,
            r16stk == (instr >> 4u8) & 3,
    ;
    if instr & 0xC7 == 0xC6 {
        alu_imm8(tgt3, console);
    } else if instr & 0xC7 == 0xC7 {
        rst_tgt3(tgt3, console);
    } else if instr & 0xCF == 0xC1 {
        pop_r16stk(r16stk, console);
    } else if instr & 0xCF == 0xC5 {
        push_r16stk(r16stk, console);
    } else if instr == 0xC9 {
        ret(console);
    } else if instr & 0xE7 == 0xC0 {
        ret_cond(cc, console);
    } else if instr == 0xD9 {
        reti(console);
    } else if instr & 0xE7 == 0xC2 {
        jp_cc_imm16(cc, console);
    } else if instr == 0xC3 {
        jp_imm16(console);
    } else if instr == 0xE9 {
        jp_hl(console);
    } else if instr == 0xCD {
        call_imm16(console);
    } else if instr & 0xE7 == 0xC4 {
        call_cc_imm16(cc, console);
    } else if instr == 0xE2 {
        ldh_c_a(console);
    } else if instr == 0xE0 {
        ldh_imm8_a(console);
    } else if instr == 0xEA {
        ld_imm16_a(console);
    } else if instr == 0xF2 {
        ldh_a_c(console);
    } else if instr == 0xF0 {
        ldh_a_imm8(console);
    } else if instr == 0xFA {
        ld_a_imm16(console);
    } else if instr == 0xE8 {
        add_sp_imm8(console);
    } else if instr == 0xF8 {
        ld_hl_sp_imm8(console);
    } else if instr == 0xF9 {
        ld_sp_hl(console);
    } else if instr == 0xF3 {
        di(console);
    } else {
        ei(console);
    }
}

} // verus!
