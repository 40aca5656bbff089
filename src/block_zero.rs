//! Opcodes 0x00 to 0x3F: immediate and indirect loads, sixteen-bit
//! increments, eight-bit increments, rotates of A, DAA, CPL, SCF, CCF,
//! relative jumps, STOP and NOP.
use vstd::prelude::*;
use crate::carry;
use crate::common::{rotate_operand, ShiftOp};
use crate::console::{Console, Machine};
use crate::half_carry;
use crate::reg8;
use crate::registers::{hi, lo, Registers};

verus! {

impl Machine {
    pub open spec fn ld_r16_imm16(self, r16: u8) -> Machine {
        let m = self.advance(2);
        m.with_regs(m.regs.with_r16(r16, self.imm16()))
    }

    pub open spec fn ld_r16mem_a(self, r16: u8) -> Machine {
        self.r16mem_post(r16).write(self.r16mem_addr(r16), self.regs.a)
    }

    pub open spec fn ld_a_r16mem(self, r16: u8) -> Machine {
        let m = self.r16mem_post(r16);
        m.with_regs(Registers { a: self.read(self.r16mem_addr(r16)), ..m.regs })
    }

    pub open spec fn ld_imm16_sp(self) -> Machine {
        let addr = self.imm16();
        self.advance(2).write(addr, lo(self.regs.sp)).write(
            addr.wrapping_add(1),
            hi(self.regs.sp),
        )
    }

    pub open spec fn inc_r16(self, r16: u8) -> Machine {
        self.with_regs(self.regs.with_r16(r16, self.regs.r16(r16).wrapping_add(1)))
    }

    pub open spec fn dec_r16(self, r16: u8) -> Machine {
        self.with_regs(self.regs.with_r16(r16, self.regs.r16(r16).wrapping_sub(1)))
    }

    pub open spec fn add_hl_r16(self, r16: u8) -> Machine {
        let hl = self.regs.hl();
        let v = self.regs.r16(r16);
        self.with_regs(
            Registers {
                nf: false,
                hf: (hl % 4096) as int + (v % 4096) as int >= 4096,
                cf: hl as int + v as int > 0xFFFF,
                ..self.regs.with_hl(hl.wrapping_add(v))
            },
        )
    }

    pub open spec fn inc_r8(self, r8: u8) -> Machine {
        let v = self.r8(r8);
        let res = v.wrapping_add(1);
        self.with_regs(
            Registers { zf: res == 0, nf: false, hf: v % 16 == 15, ..self.regs },
        ).set_r8(r8, res)
    }

    pub open spec fn dec_r8(self, r8: u8) -> Machine {
        let v = self.r8(r8);
        let res = v.wrapping_sub(1);
        self.with_regs(Registers { zf: res == 0, nf: true, hf: v % 16 == 0, ..self.regs }).set_r8(
            r8,
            res,
        )
    }

    pub open spec fn ld_r8_imm8(self, r8: u8) -> Machine {
        self.advance(1).set_r8(r8, self.imm8())
    }

    /// The adjustment that DAA adds to (after an addition) or subtracts from
    /// (after a subtraction) A.
    pub open spec fn daa_adjustment(self) -> u8 {
        let r = self.regs;
        if r.nf {
            ((if r.hf {
                6int
            } else {
                0
            }) + (if r.cf {
                0x60int
            } else {
                0
            })) as u8
        } else {
            ((if r.hf || r.a % 16 > 9 {
                6int
            } else {
                0
            }) + (if r.cf || r.a > 0x99 {
                0x60int
            } else {
                0
            })) as u8
        }
    }

    pub open spec fn daa(self) -> Machine {
        let r = self.regs;
        let adj = self.daa_adjustment();
        let res = if r.nf {
            r.a.wrapping_sub(adj)
        } else {
            r.a.wrapping_add(adj)
        };
        self.with_regs(
            Registers {
                a: res,
                zf: res == 0,
                hf: false,
                cf: if r.nf {
                    r.cf
                } else {
                    adj >= 0x60
                },
                ..r
            },
        )
    }

    pub open spec fn cpl(self) -> Machine {
        self.with_regs(Registers { a: !self.regs.a, nf: true, hf: true, ..self.regs })
    }

    pub open spec fn scf(self) -> Machine {
        self.with_regs(Registers { nf: false, hf: false, cf: true, ..self.regs })
    }

    pub open spec fn ccf(self) -> Machine {
        self.with_regs(Registers { nf: false, hf: false, cf: !self.regs.cf, ..self.regs })
    }

    /// PC after a relative jump by the signed byte at PC.
    pub open spec fn jr_target(self) -> u16 {
        self.regs.pc.wrapping_add(1).wrapping_add_signed(self.imm8() as i8 as i16)
    }

    pub open spec fn jr_imm8(self) -> Machine {
        self.set_pc(self.jr_target())
    }

    pub open spec fn jr_cc_imm8(self, cc: u8) -> Machine {
        if self.regs.cond(cc) {
            self.set_pc(self.jr_target())
        } else {
            self.advance(1)
        }
    }

    pub open spec fn stop(self) -> Machine {
        Machine { stopped: true, ..self.advance(1) }
    }

    /// An opcode of block zero, PC already past it.
    #[verifier::opaque]
    pub open spec fn block_zero(self, instr: u8) -> Machine {
        let r8 = (instr >> 3u8) & 7;
        let r16 = (instr >> 4u8) & 3;
        let cc = (instr >> 3u8) & 3;
        if instr == 0x00 {
            self
        } else if instr & 0x0F == 0x01 {
            self.ld_r16_imm16(r16)
        } else if instr & 0x0F == 0x02 {
            self.ld_r16mem_a(r16)
        } else if instr & 0x0F == 0x0A {
            self.ld_a_r16mem(r16)
        } else if instr == 0x08 {
            self.ld_imm16_sp()
        } else if instr & 0x0F == 0x03 {
            self.inc_r16(r16)
        } else if instr & 0x0F == 0x0B {
            self.dec_r16(r16)
        } else if instr & 0x0F == 0x09 {
            self.add_hl_r16(r16)
        } else if instr & 0x07 == 0x04 {
            self.inc_r8(r8)
        } else if instr & 0x07 == 0x05 {
            self.dec_r8(r8)
        } else if instr & 0x07 == 0x06 {
            self.ld_r8_imm8(r8)
        } else if instr == 0x07 {
            self.rotate_a(ShiftOp::Rlc)
        } else if instr == 0x0F {
            self.rotate_a(ShiftOp::Rrc)
        } else if instr == 0x17 {
            self.rotate_a(ShiftOp::Rl)
        } else if instr == 0x1F {
            self.rotate_a(ShiftOp::Rr)
        } else if instr == 0x27 {
            self.daa()
        } else if instr == 0x2F {
            self.cpl()
        } else if instr == 0x37 {
            self.scf()
        } else if instr == 0x3F {
            self.ccf()
        } else if instr == 0x18 {
            self.jr_imm8()
        } else if instr == 0x10 {
            self.stop()
        } else {
            self.jr_cc_imm8(cc)
        }
    }
}

fn ld_r16_imm16(r16: u8, console: &mut Console)
    requires
        old(console)@.wf(),
        r16 < 4,
    ensures
        final(console)@ == old(console)@.ld_r16_imm16(r16),
{
    let imm16 = console.fetch_two_bytes();
    console.set_r16(r16, imm16);
}

fn ld_r16mem_a(r16: u8, console: &mut Console)
    requires
        old(console)@.wf(),
        r16 < 4,
    ensures
        final(console)@ == old(console)@.ld_r16mem_a(r16),
{
    let addr = console.get_r16mem(r16);
    let a = console.regs.a;
    console.bus.set(addr, a);
}

fn ld_a_r16mem(r16: u8, console: &mut Console)
    requires
        old(console)@.wf(),
        r16 < 4,
    ensures
        final(console)@ == old(console)@.ld_a_r16mem(r16),
{
    let addr = console.get_r16mem(r16);
    console.regs.a = console.bus.get(addr);
}

fn ld_imm16_sp(console: &mut Console)
    requires
        old(console)@.wf(),
    ensures
        final(console)@ == old(console)@.ld_imm16_sp(),
{
    let imm16 = console.fetch_two_bytes();
    let sp = console.regs.sp;
    console.bus.set(imm16, sp as u8);
    console.bus.set(imm16.wrapping_add(1), (sp >> 8) as u8);
}

fn inc_r16(r16: u8, console: &mut Console)
    requires
        r16 < 4,
    ensures
        final(console)@ == old(console)@.inc_r16(r16),
{
    let v = console.get_r16(r16);
    console.set_r16(r16, v.wrapping_add(1));
}

fn dec_r16(r16: u8, console: &mut Console)
    requires
        r16 < 4,
    ensures
        final(console)@ == old(console)@.dec_r16(r16),
{
    let v = console.get_r16(r16);
    console.set_r16(r16, v.wrapping_sub(1));
}

fn add_hl_r16(r16: u8, console: &mut Console)
    requires
        r16 < 4,
    ensures
        final(console)@ == old(console)@.add_hl_r16(r16),
{
    let v = console.get_r16(r16);
    let hl = console.get_r16(2);
    console.set_r16(2, hl.wrapping_add(v));
    console.regs.nf = false;
    console.regs.hf = half_carry::add_16(hl, v);
    console.regs.cf = carry::add_16(hl, v);
}

fn inc_r8(r8: u8, console: &mut Console)
    requires
        old(console)@.wf(),
        r8 < 8,
    ensures
        final(console)@ == old(console)@.inc_r8(r8),
{
    let v = console.get_r8(r8);
    let res = v.wrapping_add(1);
    console.regs.zf = res == 0;
    console.regs.nf = false;
    console.regs.hf = half_carry::add_8(v, 1, 0);
    console.set_r8(r8, res);
}

fn dec_r8(r8: u8, console: &mut Console)
    requires
        old(console)@.wf(),
        r8 < 8,
    ensures
        final(console)@ == old(console)@.dec_r8(r8),
{
    let v = console.get_r8(r8);
    let res = v.wrapping_sub(1);
    console.regs.zf = res == 0;
    console.regs.nf = true;
    console.regs.hf = half_carry::sub_8(v, 1, 0);
    console.set_r8(r8, res);
}

fn ld_r8_imm8(r8: u8, console: &mut Console)
    requires
        old(console)@.wf(),
        r8 < 8,
    ensures
        final(console)@ == old(console)@.ld_r8_imm8(r8),
{
    let imm8 = console.fetch_byte();
    console.set_r8(r8, imm8);
}

fn daa(console: &mut Console)
    ensures
        final(console)@ == old(console)@.daa(),
{
    let a = console.regs.a;
    let mut adjustment: u8 = 0;
    if console.regs.nf {
        if console.regs.hf {
            adjustment = adjustment + 0x06;
        }
        if console.regs.cf {
            adjustment = adjustment + 0x60;
        }
        let res = a.wrapping_sub(adjustment);
        console.regs.a = res;
        console.regs.zf = res == 0;
    } else {
        if console.regs.hf || a % 16 > 9 {
            adjustment = adjustment + 0x06;
        }
        if console.regs.cf || a > 0x99 {
            adjustment = adjustment + 0x60;
        }
        let res = a.wrapping_add(adjustment);
        console.regs.a = res;
        console.regs.zf = res == 0;
        console.regs.cf = adjustment >= 0x60;
    }
    console.regs.hf = false;
}

fn cpl(console: &mut Console)
    ensures
        final(console)@ == old(console)@.cpl(),
{
    console.regs.a = !console.regs.a;
    console.regs.nf = true;
    console.regs.hf = true;
}

fn scf(console: &mut Console)
    ensures
        final(console)@ == old(console)@.scf(),
{
    console.regs.nf = false;
    console.regs.hf = false;
    console.regs.cf = true;
}

fn ccf(console: &mut Console)
    ensures
        final(console)@ == old(console)@.ccf(),
{
    console.regs.nf = false;
    console.regs.hf = false;
    console.regs.cf = !console.regs.cf;
}

fn jr_imm8(console: &mut Console)
    requires
        old(console)@.wf(),
    ensures
        final(console)@ == old(console)@.jr_imm8(),
{
    let imm8 = console.fetch_byte();
    console.move_ip(imm8);
}

fn jr_cc_imm8(cc: u8, console: &mut Console)
    requires
        old(console)@.wf(),
        cc < 4,
    ensures
        final(console)@ == old(console)@.jr_cc_imm8(cc),
{
    let imm8 = console.fetch_byte();
    if console.is_condition_met(cc) {
        console.move_ip(imm8);
    }
}

fn stop(console: &mut Console)
    requires
        old(console)@.wf(),
    ensures
        final(console)@ == old(console)@.stop(),
{
    console.fetch_byte();
    console.stopped = true;
}

/// Executes `instr`, an opcode of block zero; PC is already past it.
pub fn dispatch(console: &mut Console, instr: u8)
    requires
        old(console)@.wf(),
        instr < 0x40,
    ensures
        final(console)@ == old(console)@.block_zero(instr),
        final(console)@.wf(),
{
    reveal(Machine::block_zero);
    let r8: u8 = (instr >> 3u8) & 7;
    let r16: u8 = (instr >> 4u8) & 3;
    let cc: u8 = (instr >> 3u8) & 3;
    assert(r8 < 8 && r16 < 4 && cc < 4) by (bit_vector)
        requires
            r8 == (instr >> 3u8) & 7,
            r16 == (instr >> 4u8) & 3,
            cc == (instr >> 3u8) & 3,
    ;
    if instr == 0x00 {
    } else if instr & 0x0F == 0x01 {
        ld_r16_imm16(r16, console);
    } else if instr & 0x0F == 0x02 {
        ld_r16mem_a(r16, console);
    } else if instr & 0x0F == 0x0A {
        ld_a_r16mem(r16, console);
    } else if instr == 0x08 {
        ld_imm16_sp(console);
    } else if instr & 0x0F == 0x03 {
        inc_r16(r16, console);
    } else if instr & 0x0F == 0x0B {
        dec_r16(r16, console);
    } else if instr & 0x0F == 0x09 {
        add_hl_r16(r16, console);
    } else if instr & 0x07 == 0x04 {
        inc_r8(r8, console);
    } else if instr & 0x07 == 0x05 {
        dec_r8(r8, console);
    } else if instr & 0x07 == 0x06 {
        ld_r8_imm8(r8, console);
    } else if instr == 0x07 {
        rotate_operand(reg8::EA, console, ShiftOp::Rlc);
    } else if instr == 0x0F {
        rotate_operand(reg8::EA, console, ShiftOp::Rrc);
    } else if instr == 0x17 {
        rotate_operand(reg8::EA, console, ShiftOp::Rl);
    } else if instr == 0x1F {
        rotate_operand(reg8::EA, console, ShiftOp::Rr);
    } else if instr == 0x27 {
        daa(console);
    } else if instr == 0x2F {
        cpl(console);
    } else if instr == 0x37 {
        scf(console);
    } else if instr == 0x3F {
        ccf(console);
    } else if instr == 0x18 {
        jr_imm8(console);
    } else if instr == 0x10 {
        stop(console);
    } else {
        jr_cc_imm8(cc, console);
    }
}

} // verus!
