use rgbe::bus::{AddrBus, IntrState};
use rgbe::console::Console;
use rgbe::{carry, half_carry, intr};

fn bus() -> AddrBus {
    AddrBus::new(vec![0u8; 0x10000])
}

#[test]
fn rom_writes_are_dropped() {
    let mut b = bus();
    b.set(0x0100, 0x12);
    b.set(0x7FFF, 0x12);
    assert_eq!(b.get(0x0100), 0);
    assert_eq!(b.get(0x7FFF), 0);
}

#[test]
fn echo_ram_mirrors_work_ram() {
    let mut b = bus();
    b.set(0xE010, 0x99);
    assert_eq!(b.get(0xC010), 0x99);
    b.set(0xC020, 0x77);
    assert_eq!(b.get(0xE020), 0x77);
}

#[test]
fn prohibited_area_reads_ff() {
    let mut b = bus();
    b.set(0xFEA0, 0x12);
    assert_eq!(b.get(0xFEA0), 0xFF);
    assert_eq!(b.mem[0xFEA0], 0);
}

#[test]
fn locked_vram_reads_ff_and_drops_writes() {
    let mut b = bus();
    b.set(0x8000, 0x11);
    b.vram_locked = true;
    assert_eq!(b.get(0x8000), 0xFF);
    b.set(0x8000, 0x22);
    b.vram_locked = false;
    assert_eq!(b.get(0x8000), 0x11);
}

#[test]
fn locked_oam_and_palettes() {
    let mut b = bus();
    b.oam_locked = true;
    b.palettes_locked = true;
    b.set(0xFE00, 0x33);
    b.set(0xFF47, 0x44);
    b.set(0xFF46, 0x55);
    b.oam_locked = false;
    b.palettes_locked = false;
    assert_eq!(b.get(0xFE00), 0);
    assert_eq!(b.get(0xFF47), 0);
    assert_eq!(b.get(0xFF46), 0x55);
}

#[test]
fn interrupt_state_round_trip() {
    let mut b = bus();
    b.set_intr_state(IntrState { ime: 5, ie: 0x1F, iflag: 0x03 });
    let s = b.get_intr_state();
    assert_eq!(s.ime, 1);
    assert_eq!(s.ie, 0x1F);
    assert_eq!(s.iflag, 0x03);
    assert_eq!(b.get(0xFFFF), 0x1F);
    assert_eq!(b.get(0xFF0F), 0x03);
}

#[test]
fn console_memory_access() {
    let mut c = Console::init(Vec::new()).unwrap();
    c.set_mem(0xFF80, 0x42);
    assert_eq!(c.get_mem(0xFF80), 0x42);
    c.set_mem(0x0000, 0x42);
    assert_eq!(c.get_mem(0x0000), 0x00);
}

#[test]
fn half_carry_helpers() {
    assert!(half_carry::add_8(0x0F, 0x01, 0));
    assert!(half_carry::add_8(0x0E, 0x01, 1));
    assert!(!half_carry::add_8(0x0E, 0x01, 0));
    assert!(half_carry::sub_8(0x10, 0x01, 0));
    assert!(half_carry::sub_8(0x11, 0x01, 1));
    assert!(!half_carry::sub_8(0x11, 0x01, 0));
    assert!(half_carry::add_16(0x0FFF, 0x0001));
    assert!(!half_carry::add_16(0x0FFE, 0x0001));
    assert!(half_carry::sub_16(0x1000, 0x0001));
    assert!(!half_carry::sub_16(0x1001, 0x0001));
}

#[test]
fn carry_helpers() {
    assert!(carry::add_8(0xFF, 0x01, 0));
    assert!(carry::add_8(0xFE, 0x01, 1));
    assert!(!carry::add_8(0xFE, 0x01, 0));
    assert!(carry::sub_8(0x00, 0x01, 0));
    assert!(carry::sub_8(0x01, 0x01, 1));
    assert!(!carry::sub_8(0x01, 0x01, 0));
    assert!(carry::add_16(0xFFFF, 0x0001));
    assert!(!carry::add_16(0xFFFE, 0x0001));
    assert!(carry::sub_16(0x0000, 0x0001));
    assert!(!carry::sub_16(0x0001, 0x0001));
}

#[test]
fn interrupt_vectors_and_priority() {
    assert_eq!(intr::get_jump_vector(intr::VBLANK), 0x40);
    assert_eq!(intr::get_jump_vector(intr::LCD), 0x48);
    assert_eq!(intr::get_jump_vector(intr::TIMER), 0x50);
    assert_eq!(intr::get_jump_vector(intr::SERIAL), 0x58);
    assert_eq!(intr::get_jump_vector(intr::JOYPAD), 0x60);
    assert_eq!(intr::highest_priority(0b10110), intr::LCD);
    assert_eq!(intr::highest_priority(0b10000), intr::JOYPAD);
}

#[test]
fn flag_operations() {
    let mut c = Console::init(Vec::new()).unwrap();
    c.set_flags(&[rgbe::flag::Z, rgbe::flag::C]);
    assert_eq!(c.get_flags(), 0x90);
    assert!(c.is_condition_met(rgbe::cond::Z));
    assert!(c.is_condition_met(rgbe::cond::C));
    assert!(!c.is_condition_met(rgbe::cond::NZ));
    c.clear_flags(&[rgbe::flag::Z]);
    assert_eq!(c.get_flags(), 0x10);
    c.clear_or_set_flag(true, rgbe::flag::H);
    assert!(c.is_flag_set(rgbe::flag::H));
    c.clear_flag(rgbe::flag::H);
    c.set_flag(rgbe::flag::N);
    assert_eq!(c.get_flags(), 0x50);
}

#[test]
fn stack_push_pop_words() {
    let mut c = Console::init(Vec::new()).unwrap();
    c.stk_push16(0x1234);
    assert_eq!(c.regs.sp, 0xFFFC);
    assert_eq!(c.get_mem(0xFFFD), 0x12);
    assert_eq!(c.get_mem(0xFFFC), 0x34);
    assert_eq!(c.stk_pop16(), 0x1234);
    assert_eq!(c.regs.sp, 0xFFFE);
}

#[test]
fn fetch_and_move_ip() {
    let mut c = Console::init(vec![0x34, 0x12, 0x56]).unwrap();
    assert_eq!(c.fetch_two_bytes(), 0x1234);
    assert_eq!(c.fetch_byte(), 0x56);
    assert_eq!(c.get_ip(), 3);
    c.move_ip(0xFD);
    assert_eq!(c.get_ip(), 0);
    c.set_ip(0x8000);
    c.move_ip(0x10);
    assert_eq!(c.get_ip(), 0x8010);
}

#[test]
fn set_ime_keeps_zero_or_one() {
    let mut c = Console::init(Vec::new()).unwrap();
    c.set_ime(5);
    assert_eq!(c.bus.ime, 1);
    c.set_ime(0);
    assert_eq!(c.bus.ime, 0);
}

#[test]
fn r16mem_moves_hl() {
    let mut c = Console::init(Vec::new()).unwrap();
    c.set_r16(2, 0x1000);
    c.set_r16(0, 0x2000);
    assert_eq!(c.get_r16mem(0), 0x2000);
    assert_eq!(c.get_r16mem(2), 0x1000);
    assert_eq!(c.get_r16(2), 0x1001);
    assert_eq!(c.get_r16mem(3), 0x1001);
    assert_eq!(c.get_r16(2), 0x1000);
}

#[test]
fn set_r8_through_hl_writes_memory() {
    let mut c = Console::init(Vec::new()).unwrap();
    c.set_r16(2, 0xC123);
    c.set_r8(6, 0xAB);
    assert_eq!(c.get_mem(0xC123), 0xAB);
    assert_eq!(c.get_r8(6), 0xAB);
    c.set_r16stk(3, 0xFFFF);
    assert_eq!(c.get_r16stk(3), 0xFFF0);
    assert_eq!(c.get_r8(7), 0xFF);
}
