use rgbe::clock::Clock;
use rgbe::{cond, flag, intr, reg16, reg16mem, reg16stk, reg8};
use rgbe::console::Console;
use rgbe::debugger::{parse_break_name, parse_command, parse_hex_addr, Command, Debugger, Reply, StepAction};

#[test]
fn session_flow() {
    let mut d = Debugger::init();
    assert_eq!(d.on_step(0x0000), StepAction::Prompt);
    assert_eq!(d.command(Command::Step), Reply::NoSession);
    assert_eq!(d.command(Command::SetBreak(0x0100)), Reply::BreakSet { id: 1, addr: 0x0100 });
    assert_eq!(d.command(Command::SetBreak(0x0100)), Reply::BreakExists { id: 1, addr: 0x0100 });
    assert_eq!(d.command(Command::SetBreak(0x0200)), Reply::BreakSet { id: 2, addr: 0x0200 });
    assert_eq!(d.command(Command::Run), Reply::Resume);
    assert_eq!(d.on_step(0x0001), StepAction::Continue);
    assert_eq!(d.on_step(0x0100), StepAction::Breakpoint(1));
    assert_eq!(d.command(Command::Step), Reply::Resume);
    assert_eq!(d.on_step(0x0101), StepAction::Prompt);
    assert_eq!(d.command(Command::RemoveBreak(1)), Reply::BreakRemoved { id: 1, addr: 0x0100 });
    assert_eq!(d.command(Command::RemoveBreak(1)), Reply::NoSuchBreak { id: 1 });
    assert_eq!(d.command(Command::Run), Reply::Resume);
    assert_eq!(d.on_step(0x0100), StepAction::Continue);
    assert_eq!(d.on_step(0x0200), StepAction::Breakpoint(2));
    assert_eq!(d.command(Command::Verbose), Reply::VerboseToggled(true));
    assert_eq!(d.command(Command::DumpRegs), Reply::Dump);
    assert_eq!(d.command(Command::Exit), Reply::Exit);
}

#[test]
fn hook_asks_the_debugger() {
    let c = Console::init(Vec::new()).unwrap();
    let mut d = Debugger::init();
    d.command(Command::SetBreak(0x0000));
    assert_eq!(c.call_hook(&mut d), StepAction::Breakpoint(1));
}

#[test]
fn hex_addresses() {
    assert_eq!(parse_hex_addr(b"0xC000"), Some(0xC000));
    assert_eq!(parse_hex_addr(b"ff"), Some(0xFF));
    assert_eq!(parse_hex_addr(b"FFFF"), Some(0xFFFF));
    assert_eq!(parse_hex_addr(b"0x00150"), Some(0x150));
    assert_eq!(parse_hex_addr(b"10000"), None);
    assert_eq!(parse_hex_addr(b"0x"), None);
    assert_eq!(parse_hex_addr(b""), None);
    assert_eq!(parse_hex_addr(b"12g"), None);
}

#[test]
fn breakpoint_names() {
    assert_eq!(parse_break_name(b"break_12"), Some(12));
    assert_eq!(parse_break_name(b"break_"), None);
    assert_eq!(parse_break_name(b"brk_1"), None);
    assert_eq!(parse_break_name(b"break_1a"), None);
    assert_eq!(parse_break_name(b"break_4294967296"), None);
}

#[test]
fn commands() {
    assert_eq!(parse_command(b"r", b""), Command::Run);
    assert_eq!(parse_command(b"s", b""), Command::Step);
    assert_eq!(parse_command(b"d", b""), Command::DumpRegs);
    assert_eq!(parse_command(b"v", b""), Command::Verbose);
    assert_eq!(parse_command(b"e", b""), Command::Exit);
    assert_eq!(parse_command(b"b", b"0x150"), Command::SetBreak(0x150));
    assert_eq!(parse_command(b"b", b"zz"), Command::Unknown);
    assert_eq!(parse_command(b"x", b"break_3"), Command::RemoveBreak(3));
    assert_eq!(parse_command(b"q", b""), Command::Unknown);
    assert_eq!(parse_command(b"rr", b""), Command::Unknown);
}

#[test]
fn clock_counts() {
    let mut c = Clock::new();
    c.increment();
    c.increment();
    assert_eq!(c.counter, 2);
}

#[test]
fn mnemonic_names() {
    assert_eq!(reg8::reg_to_name(reg8::HL_ADDR), "[HL]");
    assert_eq!(reg8::reg_to_name(reg8::EA), "A");
    assert_eq!(reg8::reg_to_name(reg8::E), "E");
    assert_eq!(reg16::reg_to_name(reg16::SP), "SP");
    assert_eq!(reg16stk::reg_to_name(reg16stk::AF), "AF");
    assert_eq!(reg16mem::reg_to_name(reg16mem::HLD), "HLD");
    assert_eq!(cond::get_cond_name(cond::NC), "NC");
    assert_eq!(flag::flag_to_name(flag::H), "H");
    assert_eq!(intr::intr_to_name(intr::SERIAL), "SERIAL");
}
