use rgbe::console::Console;
use rgbe::cpu::StepError;

fn console_with(program: &[u8], at: u16) -> Console {
    let mut c = Console::init(Vec::new()).unwrap();
    for (i, b) in program.iter().enumerate() {
        c.bus.mem[at as usize + i] = *b;
    }
    c.regs.pc = at;
    c
}

fn flags(c: &Console) -> (bool, bool, bool, bool) {
    (c.regs.zf, c.regs.nf, c.regs.hf, c.regs.cf)
}

#[test]
fn init_refuses_long_boot_rom() {
    let r = Console::init(vec![0u8; 0x101]);
    assert_eq!(r.err().unwrap(), "Boot rom too long");
}

#[test]
fn init_loads_boot_rom_and_header() {
    let c = Console::init(vec![0x31, 0xFE, 0xFF]).unwrap();
    assert_eq!(c.get_mem(0), 0x31);
    assert_eq!(c.get_mem(2), 0xFF);
    assert_eq!(c.get_mem(3), 0x00);
    assert_eq!(c.get_mem(0x100), 0x00);
    assert_eq!(c.get_mem(0x101), 0xC3);
    assert_eq!(c.get_mem(0x102), 0x50);
    assert_eq!(c.get_mem(0x103), 0x01);
    assert_eq!(c.get_mem(0x133), 0x3E);
    assert_eq!(c.regs.sp, 0xFFFE);
    assert_eq!(c.regs.pc, 0);
    assert_eq!(c.bus.ime, 0);
    assert!(!c.pending_ei);
}

#[test]
fn load_through_hl() {
    let mut c = console_with(&[0x46], 0x0150);
    c.regs.h = 0xC0;
    c.regs.l = 0x00;
    c.bus.mem[0xC000] = 0x42;
    c.regs.b = 0;
    c.regs.zf = true;
    c.regs.cf = true;
    c.step().unwrap();
    assert_eq!(c.regs.b, 0x42);
    assert_eq!(c.regs.pc, 0x0151);
    assert_eq!(flags(&c), (true, false, false, true));
}

#[test]
fn half_carry_on_add() {
    let mut c = console_with(&[0x80], 0xC000);
    c.regs.a = 0x0F;
    c.regs.b = 0x01;
    c.step().unwrap();
    assert_eq!(c.regs.a, 0x10);
    assert_eq!(flags(&c), (false, false, true, false));
}

#[test]
fn daa_after_add() {
    let mut c = console_with(&[0x80, 0x27], 0xC000);
    c.regs.a = 0x45;
    c.regs.b = 0x38;
    c.step().unwrap();
    assert_eq!(c.regs.a, 0x7D);
    // 0x5 + 0x8 does not carry out of bit 3.
    assert!(!c.regs.hf);
    c.step().unwrap();
    assert_eq!(c.regs.a, 0x83);
    assert_eq!(flags(&c), (false, false, false, false));
}

#[test]
fn daa_after_sub() {
    // 0x42 - 0x15 = 0x2D, adjusted to 0x27.
    let mut c = console_with(&[0x90, 0x27], 0xC000);
    c.regs.a = 0x42;
    c.regs.b = 0x15;
    c.step().unwrap();
    assert_eq!(c.regs.a, 0x2D);
    assert!(c.regs.hf && c.regs.nf);
    c.step().unwrap();
    assert_eq!(c.regs.a, 0x27);
    assert_eq!(flags(&c), (false, true, false, false));
}

#[test]
fn call_ret_round_trip() {
    let mut c = console_with(&[0xCD, 0x00, 0x02], 0x0100);
    c.bus.mem[0x0200] = 0xC9;
    c.regs.sp = 0xFFFE;
    c.step().unwrap();
    assert_eq!(c.regs.pc, 0x0200);
    assert_eq!(c.regs.sp, 0xFFFC);
    assert_eq!(c.get_mem(0xFFFC), 0x03);
    assert_eq!(c.get_mem(0xFFFD), 0x01);
    c.step().unwrap();
    assert_eq!(c.regs.pc, 0x0103);
    assert_eq!(c.regs.sp, 0xFFFE);
}

#[test]
fn delayed_ei() {
    let mut c = console_with(&[0xFB, 0x7F, 0x00], 0xC100);
    c.bus.mem[0xFF0F] = 0x01;
    c.bus.mem[0xFFFF] = 0x01;
    c.step().unwrap();
    assert_eq!(c.bus.ime, 0);
    assert!(c.pending_ei);
    c.step().unwrap();
    assert_eq!(c.regs.pc, 0xC102);
    assert_eq!(c.bus.ime, 1);
    assert!(!c.pending_ei);
    c.step().unwrap();
    assert_eq!(c.regs.pc, 0x0040);
    assert_eq!(c.bus.ime, 0);
    assert_eq!(c.bus.mem[0xFF0F], 0x00);
    assert_eq!(c.regs.sp, 0xFFFC);
    assert_eq!(c.get_mem(0xFFFC), 0x02);
    assert_eq!(c.get_mem(0xFFFD), 0xC1);
}

#[test]
fn cb_swap() {
    let mut c = console_with(&[0xCB, 0x37], 0xC000);
    c.regs.a = 0xAB;
    c.regs.cf = true;
    c.step().unwrap();
    assert_eq!(c.regs.a, 0xBA);
    assert_eq!(flags(&c), (false, false, false, false));
    assert_eq!(c.regs.pc, 0xC002);
}

#[test]
fn swap_twice_restores_byte() {
    let mut c = console_with(&[0xCB, 0x30, 0xCB, 0x30], 0xC000);
    c.regs.b = 0x5C;
    c.step().unwrap();
    assert_eq!(c.regs.b, 0xC5);
    c.step().unwrap();
    assert_eq!(c.regs.b, 0x5C);
    assert!(!c.regs.zf);
}

#[test]
fn inc_wraps_to_zero() {
    let mut c = console_with(&[0x3C], 0xC000);
    c.regs.a = 0xFF;
    c.regs.cf = true;
    c.step().unwrap();
    assert_eq!(c.regs.a, 0x00);
    assert_eq!(flags(&c), (true, false, true, true));
}

#[test]
fn dec_wraps_to_ff() {
    let mut c = console_with(&[0x05], 0xC000);
    c.regs.b = 0x00;
    c.step().unwrap();
    assert_eq!(c.regs.b, 0xFF);
    assert_eq!(flags(&c), (false, true, true, false));
}

#[test]
fn inc_then_dec_restores_byte() {
    let mut c = console_with(&[0x34, 0x35], 0xC000);
    c.regs.h = 0xC1;
    c.regs.l = 0x00;
    c.bus.mem[0xC100] = 0x0F;
    c.regs.cf = true;
    c.step().unwrap();
    assert_eq!(c.get_mem(0xC100), 0x10);
    assert!(c.regs.hf);
    c.step().unwrap();
    assert_eq!(c.get_mem(0xC100), 0x0F);
    assert!(!c.regs.zf);
    assert!(c.regs.hf);
    assert!(c.regs.cf);
}

#[test]
fn add_immediate_ff_to_one() {
    let mut c = console_with(&[0xC6, 0xFF], 0xC000);
    c.regs.a = 0x01;
    c.step().unwrap();
    assert_eq!(c.regs.a, 0x00);
    assert_eq!(flags(&c), (true, false, true, true));
}

#[test]
fn adc_counts_carry_in() {
    let mut c = console_with(&[0xCE, 0xFF], 0xC000);
    c.regs.a = 0x00;
    c.regs.cf = true;
    c.step().unwrap();
    assert_eq!(c.regs.a, 0x00);
    assert_eq!(flags(&c), (true, false, true, true));
}

#[test]
fn sbc_borrows() {
    let mut c = console_with(&[0x98], 0xC000);
    c.regs.a = 0x10;
    c.regs.b = 0x0F;
    c.regs.cf = true;
    c.step().unwrap();
    assert_eq!(c.regs.a, 0x00);
    assert_eq!(flags(&c), (true, true, true, false));
}

#[test]
fn cp_keeps_a() {
    let mut c = console_with(&[0xFE, 0x20], 0xC000);
    c.regs.a = 0x10;
    c.step().unwrap();
    assert_eq!(c.regs.a, 0x10);
    assert_eq!(flags(&c), (false, true, false, true));
}

#[test]
fn xor_a_clears_a() {
    let mut c = console_with(&[0xAF, 0xB7], 0xC000);
    c.regs.a = 0x5A;
    c.step().unwrap();
    assert_eq!(c.regs.a, 0);
    assert_eq!(flags(&c), (true, false, false, false));
    c.regs.a = 0x33;
    c.step().unwrap();
    assert_eq!(c.regs.a, 0x33);
    assert!(!c.regs.zf);
}

#[test]
fn and_sets_half_carry() {
    let mut c = console_with(&[0xE6, 0x0F], 0xC000);
    c.regs.a = 0xF0;
    c.step().unwrap();
    assert_eq!(c.regs.a, 0x00);
    assert_eq!(flags(&c), (true, false, true, false));
}

#[test]
fn jr_back_two_loops() {
    let mut c = console_with(&[0x18, 0xFE], 0xC000);
    for _ in 0..5 {
        c.step().unwrap();
        assert_eq!(c.regs.pc, 0xC000);
    }
}

#[test]
fn jr_conditional() {
    let mut c = console_with(&[0x20, 0x05], 0xC000);
    c.regs.zf = true;
    c.step().unwrap();
    assert_eq!(c.regs.pc, 0xC002);
    c.regs.pc = 0xC000;
    c.regs.zf = false;
    c.step().unwrap();
    assert_eq!(c.regs.pc, 0xC007);
}

#[test]
fn rst_38() {
    let mut c = console_with(&[0xFF], 0xC123);
    c.step().unwrap();
    assert_eq!(c.regs.pc, 0x0038);
    assert_eq!(c.regs.sp, 0xFFFC);
    assert_eq!(c.get_mem(0xFFFC), 0x24);
    assert_eq!(c.get_mem(0xFFFD), 0xC1);
}

#[test]
fn push_pop_af_masks_low_nibble() {
    let mut c = console_with(&[0xF1], 0xC000);
    c.regs.sp = 0xD000;
    c.bus.mem[0xD000] = 0xFF;
    c.bus.mem[0xD001] = 0x12;
    c.step().unwrap();
    assert_eq!(c.regs.a, 0x12);
    assert_eq!(c.get_flags(), 0xF0);
    assert_eq!(c.get_r16stk(3), 0x12F0);
}

#[test]
fn push_pop_bc_round_trip() {
    let mut c = console_with(&[0xC5, 0x01, 0x00, 0x00, 0xC1], 0xC000);
    c.regs.b = 0xBE;
    c.regs.c = 0xEF;
    c.step().unwrap();
    assert_eq!(c.regs.sp, 0xFFFC);
    c.step().unwrap();
    assert_eq!(c.get_r16(0), 0x0000);
    c.step().unwrap();
    assert_eq!(c.get_r16(0), 0xBEEF);
    assert_eq!(c.regs.sp, 0xFFFE);
}

#[test]
fn ld_hl_increment() {
    let mut c = console_with(&[0x22, 0x3A], 0xC000);
    c.regs.h = 0xC1;
    c.regs.l = 0xFF;
    c.regs.a = 0x77;
    c.step().unwrap();
    assert_eq!(c.get_mem(0xC1FF), 0x77);
    assert_eq!(c.get_r16(2), 0xC200);
    c.step().unwrap();
    assert_eq!(c.regs.a, 0x00);
    assert_eq!(c.get_r16(2), 0xC1FF);
}

#[test]
fn add_hl_sets_carries() {
    let mut c = console_with(&[0x09], 0xC000);
    c.set_r16(2, 0x8FFF);
    c.set_r16(0, 0x8001);
    c.regs.zf = true;
    c.step().unwrap();
    assert_eq!(c.get_r16(2), 0x1000);
    assert_eq!(flags(&c), (true, false, true, true));
}

#[test]
fn add_sp_signed() {
    let mut c = console_with(&[0xE8, 0xFF, 0xF8, 0x02], 0xC000);
    c.regs.sp = 0xFFF8;
    c.step().unwrap();
    assert_eq!(c.regs.sp, 0xFFF7);
    assert_eq!(flags(&c), (false, false, true, true));
    c.step().unwrap();
    assert_eq!(c.get_r16(2), 0xFFF9);
    assert_eq!(c.regs.sp, 0xFFF7);
    assert_eq!(flags(&c), (false, false, false, false));
}

#[test]
fn bit_res_set() {
    let mut c = console_with(&[0xCB, 0x7F, 0xCB, 0xBF, 0xCB, 0xC7], 0xC000);
    c.regs.a = 0x80;
    c.regs.cf = true;
    c.step().unwrap();
    assert_eq!(flags(&c), (false, false, true, true));
    c.step().unwrap();
    assert_eq!(c.regs.a, 0x00);
    c.step().unwrap();
    assert_eq!(c.regs.a, 0x01);
}

#[test]
fn rotates_of_a_clear_z() {
    let mut c = console_with(&[0x07, 0x17, 0xCB, 0x11], 0xC000);
    c.regs.a = 0x80;
    c.step().unwrap();
    assert_eq!(c.regs.a, 0x01);
    assert_eq!(flags(&c), (false, false, false, true));
    c.regs.a = 0x80;
    c.regs.cf = false;
    c.step().unwrap();
    assert_eq!(c.regs.a, 0x00);
    assert_eq!(flags(&c), (false, false, false, true));
    c.regs.c = 0x00;
    c.regs.cf = false;
    c.step().unwrap();
    assert_eq!(c.regs.c, 0x00);
    assert_eq!(flags(&c), (true, false, false, false));
}

#[test]
fn sra_keeps_sign_srl_clears_it() {
    let mut c = console_with(&[0xCB, 0x28, 0xCB, 0x39], 0xC000);
    c.regs.b = 0x81;
    c.regs.c = 0x81;
    c.step().unwrap();
    assert_eq!(c.regs.b, 0xC0);
    assert!(c.regs.cf);
    c.step().unwrap();
    assert_eq!(c.regs.c, 0x40);
    assert!(c.regs.cf);
}

#[test]
fn illegal_opcode_is_reported() {
    let mut c = console_with(&[0xD3], 0xC010);
    let r = c.step();
    assert_eq!(r, Err(StepError::IllegalOpcode { opcode: 0xD3, pc: 0xC010 }));
}

#[test]
fn execute_stops_at_illegal_opcode() {
    let mut c = console_with(&[0x00, 0x00, 0xFD], 0xC000);
    let r = c.execute(10);
    assert_eq!(r, Err(StepError::IllegalOpcode { opcode: 0xFD, pc: 0xC002 }));
    let mut d = console_with(&[0x00, 0x00, 0x00], 0xC000);
    assert_eq!(d.execute(3), Ok(()));
    assert_eq!(d.regs.pc, 0xC003);
}

#[test]
fn interrupt_priority_and_reti() {
    let mut c = console_with(&[0x00], 0xC000);
    c.bus.ime = 1;
    c.bus.mem[0xFFFF] = 0x1F;
    c.bus.mem[0xFF0F] = 0x14;
    c.bus.mem[0x0050] = 0xD9;
    c.step().unwrap();
    assert_eq!(c.regs.pc, 0x0050);
    assert_eq!(c.bus.mem[0xFF0F], 0x10);
    assert_eq!(c.bus.ime, 0);
    c.step().unwrap();
    assert_eq!(c.regs.pc, 0xC000);
    assert_eq!(c.bus.ime, 1);
}

#[test]
fn halt_waits_for_interrupt() {
    let mut c = console_with(&[0x76, 0x04], 0xC000);
    c.bus.mem[0xFFFF] = 0x04;
    c.step().unwrap();
    assert!(c.halted);
    c.step().unwrap();
    assert_eq!(c.regs.pc, 0xC001);
    c.bus.mem[0xFF0F] = 0x04;
    c.step().unwrap();
    assert!(!c.halted);
    assert_eq!(c.regs.b, 1);
    assert_eq!(c.regs.pc, 0xC002);
}

#[test]
fn halt_bug_reads_byte_twice() {
    let mut c = console_with(&[0x76, 0x04], 0xC000);
    c.bus.mem[0xFFFF] = 0x01;
    c.bus.mem[0xFF0F] = 0x01;
    c.step().unwrap();
    assert!(!c.halted);
    c.step().unwrap();
    assert_eq!(c.regs.b, 1);
    assert_eq!(c.regs.pc, 0xC001);
    c.step().unwrap();
    assert_eq!(c.regs.b, 2);
    assert_eq!(c.regs.pc, 0xC002);
}

#[test]
fn stop_waits_for_joypad() {
    let mut c = console_with(&[0x10, 0x00, 0x04], 0xC000);
    c.step().unwrap();
    assert!(c.stopped);
    assert_eq!(c.regs.pc, 0xC002);
    c.step().unwrap();
    assert_eq!(c.regs.b, 0);
    c.bus.mem[0xFF0F] = 0x10;
    c.step().unwrap();
    assert_eq!(c.regs.b, 1);
}

#[test]
fn ldh_and_absolute_loads() {
    let mut c = console_with(&[0xE0, 0x80, 0xEA, 0x00, 0xC2, 0xF0, 0x81, 0xFA, 0x00, 0xC2], 0xC000);
    c.regs.a = 0x5A;
    c.step().unwrap();
    assert_eq!(c.get_mem(0xFF80), 0x5A);
    c.step().unwrap();
    assert_eq!(c.get_mem(0xC200), 0x5A);
    c.bus.mem[0xFF81] = 0x11;
    c.step().unwrap();
    assert_eq!(c.regs.a, 0x11);
    c.step().unwrap();
    assert_eq!(c.regs.a, 0x5A);
}

#[test]
fn ld_imm16_sp_stores_low_first() {
    let mut c = console_with(&[0x08, 0x00, 0xC3], 0xC000);
    c.regs.sp = 0xABCD;
    c.step().unwrap();
    assert_eq!(c.get_mem(0xC300), 0xCD);
    assert_eq!(c.get_mem(0xC301), 0xAB);
}
