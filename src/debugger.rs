//! The debugger's decisions: a breakpoint table, a step flag, and what to do
//! before each instruction and on each command. Reading commands and
//! printing replies is left to the caller.
use vstd::prelude::*;
use crate::console::Console;

verus! {

/// What the caller does before the instruction at an address.
#[derive(Clone, Copy, Debug, PartialEq, Eq, Structural)]
pub enum StepAction {
    /// Run it.
    Continue,
    /// Read commands until one resumes.
    Prompt,
    /// Breakpoint `id` is at the address: report it, then read commands.
    Breakpoint(u32),
}

#[derive(Clone, Copy, Debug, PartialEq, Eq, Structural)]
pub enum Command {
    Run,
    Step,
    SetBreak(u16),
    RemoveBreak(u32),
    DumpRegs,
    Verbose,
    Exit,
    Unknown,
}

#[derive(Clone, Copy, Debug, PartialEq, Eq, Structural)]
pub enum Reply {
    /// Leave the prompt and run.
    Resume,
    /// Stepping asked for before a session was started.
    NoSession,
    BreakSet { id: u32, addr: u16 },
    BreakExists { id: u32, addr: u16 },
    BreakRemoved { id: u32, addr: u16 },
    NoSuchBreak { id: u32 },
    /// The caller prints the registers.
    Dump,
    VerboseToggled(bool),
    Exit,
    Unknown,
}

/// The observer installed in front of the CPU: told the address of each
/// instruction before it runs, it may only read the console.
pub trait Hookable {
    fn hook(&mut self, console: &Console, addr: u16) -> StepAction;
}

impl Console {
    /// Asks `h` what to do before the instruction at PC.
    pub fn call_hook<H: Hookable>(&self, h: &mut H) -> StepAction {
        let pc = self.get_ip();
        h.hook(self, pc)
    }
}

pub struct Debugger {
    pub break_count: u32,
    pub started: bool,
    pub stepping: bool,
    pub verbose: bool,
    /// Address and number of each breakpoint; the one named `break_<n>` has
    /// number n.
    pub breakpoints: Vec<(u16, u32)>,
}

impl Debugger {
    pub fn init() -> (r: Debugger)
        ensures
            r.break_count == 0,
            !r.started && !r.stepping && !r.verbose,
            r.breakpoints@.len() == 0,
    {
        Debugger {
            break_count: 0,
            started: false,
            stepping: false,
            verbose: false,
            breakpoints: Vec::new(),
        }
    }

    /// Index of the first breakpoint whose field `by_id` selects (its
    /// number when `by_id`, else its address) equal to `key`.
    fn position(&self, key: u32, by_id: bool) -> (r: Option<usize>)
        ensures
            r matches Some(i) ==> i < self.breakpoints@.len() && (if by_id {
                self.breakpoints@[i as int].1 == key
            } else {
                self.breakpoints@[i as int].0 as u32 == key
            }),
            r matches Some(i) ==> forall|j: int|
                0 <= j < i ==> (if by_id {
                    self.breakpoints@[j].1 != key
                } else {
                    self.breakpoints@[j].0 as u32 != key
                }),
            r is None ==> forall|j: int|
                0 <= j < self.breakpoints@.len() ==> (if by_id {
                    self.breakpoints@[j].1 != key
                } else {
                    self.breakpoints@[j].0 as u32 != key
                }),
    {
        let mut i: usize = 0;
        while i < self.breakpoints.len()
            invariant
                i <= self.breakpoints@.len(),
                forall|j: int|
                    0 <= j < i ==> (if by_id {
                        self.breakpoints@[j].1 != key
                    } else {
                        self.breakpoints@[j].0 as u32 != key
                    }),
            decreases self.breakpoints@.len() - i,
        {
            let (a, n) = self.breakpoints[i];
            if (by_id && n == key) || (!by_id && a as u32 == key) {
                return Some(i);
            }
            i = i + 1;
        }
        None
    }

    /// What to do before the instruction at `addr`: stop at a breakpoint;
    /// run on once a session runs and no single step is asked for; else
    /// prompt. A stop ends the single step.
    pub fn on_step(&mut self, addr: u16) -> (r: StepAction)
        ensures
            final(self).breakpoints == old(self).breakpoints,
            final(self).break_count == old(self).break_count,
            final(self).started == old(self).started,
            final(self).verbose == old(self).verbose,
            (exists|i: int| 0 <= i < old(self).breakpoints@.len() && old(self).breakpoints@[i].0 == addr)
                ==> (exists|i: int|
                0 <= i < old(self).breakpoints@.len() && old(self).breakpoints@[i].0 == addr
                    && r == StepAction::Breakpoint(old(self).breakpoints@[i].1)) && !final(self).stepping,
            !(exists|i: int| 0 <= i < old(self).breakpoints@.len() && old(self).breakpoints@[i].0 == addr)
                ==> if !old(self).stepping && old(self).started {
                r == StepAction::Continue && final(self).stepping == old(self).stepping
            } else {
                r == StepAction::Prompt && !final(self).stepping
            },
    {
        match self.position(addr as u32, false) {
            Some(i) => {
                self.stepping = false;
                StepAction::Breakpoint(self.breakpoints[i].1)
            },
            None => {
                if !self.stepping && self.started {
                    StepAction::Continue
                } else {
                    self.stepping = false;
                    StepAction::Prompt
                }
            },
        }
    }

    /// Carries out a command read at the prompt; the prompt ends on
    /// `Reply::Resume` and `Reply::Exit`.
    pub fn command(&mut self, cmd: Command) -> (r: Reply)
        requires
            old(self).break_count < u32::MAX,
        ensures
            cmd == Command::Run ==> r == Reply::Resume && final(self).started && final(self).breakpoints
                == old(self).breakpoints,
            cmd == Command::Step ==> (if old(self).started {
                r == Reply::Resume && final(self).stepping
            } else {
                r == Reply::NoSession && final(self).stepping == old(self).stepping
            }),
            cmd == Command::Verbose ==> r == Reply::VerboseToggled(!old(self).verbose)
                && final(self).verbose == !old(self).verbose,
            cmd == Command::DumpRegs ==> r == Reply::Dump,
            cmd == Command::Exit ==> r == Reply::Exit,
            cmd == Command::Unknown ==> r == Reply::Unknown,
            forall|addr: u16|
                cmd == Command::SetBreak(addr) ==> if (exists|i: int|
                    0 <= i < old(self).breakpoints@.len() && old(self).breakpoints@[i].0 == addr) {
                    final(self).breakpoints == old(self).breakpoints && (r matches Reply::BreakExists {
                        id,
                        addr: a,
                    } && a == addr && exists|i: int|
                        0 <= i < old(self).breakpoints@.len() && old(self).breakpoints@[i] == (
                            addr,
                            id,
                        ))
                } else {
                    final(self).break_count == old(self).break_count + 1 && final(self).breakpoints@
                        == old(self).breakpoints@.push((addr, final(self).break_count)) && r
                        == (Reply::BreakSet { id: final(self).break_count, addr })
                },
            forall|id: u32|
                cmd == Command::RemoveBreak(id) ==> if (exists|i: int|
                    0 <= i < old(self).breakpoints@.len() && old(self).breakpoints@[i].1 == id) {
                    exists|i: int|
                        0 <= i < old(self).breakpoints@.len() && old(self).breakpoints@[i].1 == id
                            && final(self).breakpoints@ == old(self).breakpoints@.remove(i) && r == (
                        Reply::BreakRemoved { id, addr: old(self).breakpoints@[i].0 })
                } else {
                    final(self).breakpoints == old(self).breakpoints && r == (Reply::NoSuchBreak {
                        id,
                    })
                },
    {
        match cmd {
            Command::Run => {
                self.started = true;
                Reply::Resume
            },
            Command::Step => {
                if self.started {
                    self.stepping = true;
                    Reply::Resume
                } else {
                    Reply::NoSession
                }
            },
            Command::SetBreak(addr) => {
                match self.position(addr as u32, false) {
                    Some(i) => Reply::BreakExists { id: self.breakpoints[i].1, addr },
                    None => {
                        proof {
                            assert forall|i: int| 0 <= i < self.breakpoints@.len() implies self.breakpoints@[i].0
                                != addr by {
                                assert(self.breakpoints@[i].0 as u32 != addr as u32);
                            }
                        }
                        self.break_count = self.break_count + 1;
                        self.breakpoints.push((addr, self.break_count));
                        Reply::BreakSet { id: self.break_count, addr }
                    },
                }
            },
            Command::RemoveBreak(id) => {
                match self.position(id, true) {
                    Some(i) => {
                        let (addr, _) = self.breakpoints.remove(i);
                        Reply::BreakRemoved { id, addr }
                    },
                    None => Reply::NoSuchBreak { id },
                }
            },
            Command::DumpRegs => Reply::Dump,
            Command::Verbose => {
                self.verbose = !self.verbose;
                Reply::VerboseToggled(self.verbose)
            },
            Command::Exit => Reply::Exit,
            Command::Unknown => Reply::Unknown,
        }
    }
}

impl Hookable for Debugger {
    fn hook(&mut self, console: &Console, addr: u16) -> StepAction {
        self.on_step(addr)
    }
}

/// Value of digit `c` in base `radix` (10 or 16, either case), if it is one.
pub open spec fn digit_value(c: u8, radix: u32) -> Option<int> {
    if 0x30 <= c <= 0x39 && c - 0x30 < radix {
        Some(c - 0x30)
    } else if radix == 16 && 0x61 <= c <= 0x66 {
        Some(c - 0x61 + 10)
    } else if radix == 16 && 0x41 <= c <= 0x46 {
        Some(c - 0x41 + 10)
    } else {
        None
    }
}

pub open spec fn all_digits(s: Seq<u8>, radix: u32) -> bool {
    forall|i: int| 0 <= i < s.len() ==> (#[trigger] digit_value(s[i], radix)) is Some
}

/// The number that the digits `s` write in base `radix`.
pub open spec fn number_value(s: Seq<u8>, radix: u32) -> int
    decreases s.len(),
{
    if s.len() == 0 {
        0
    } else {
        number_value(s.drop_last(), radix) * radix + digit_value(s.last(), radix)->0
    }
}

/// `s` without `prefix`, when it starts with it.
pub open spec fn strip(s: Seq<u8>, prefix: Seq<u8>) -> Seq<u8> {
    if s.len() >= prefix.len() && s.subrange(0, prefix.len() as int) == prefix {
        s.subrange(prefix.len() as int, s.len() as int)
    } else {
        s
    }
}

proof fn lemma_number_grows(s: Seq<u8>, radix: u32, i: int, k: int)
    requires
        radix == 10 || radix == 16,
        all_digits(s, radix),
        0 <= i <= k <= s.len(),
    ensures
        number_value(s.subrange(0, i), radix) <= number_value(s.subrange(0, k), radix),
    decreases k - i,
{
    if i < k {
        lemma_number_grows(s, radix, i, k - 1);
        let p = s.subrange(0, k);
        assert(p.drop_last() =~= s.subrange(0, k - 1));
        assert(digit_value(s[k - 1], radix) is Some);
        let v = number_value(s.subrange(0, k - 1), radix);
        assert(v >= 0) by {
            lemma_number_nonneg(s.subrange(0, k - 1), radix);
        }
        assert(v * radix >= v) by (nonlinear_arith)
            requires
                v >= 0,
                radix >= 1,
        ;
    }
}

proof fn lemma_number_nonneg(s: Seq<u8>, radix: u32)
    requires
        radix == 10 || radix == 16,
        all_digits(s, radix),
    ensures
        number_value(s, radix) >= 0,
    decreases s.len(),
{
    if s.len() > 0 {
        assert(all_digits(s.drop_last(), radix)) by {
            assert forall|i: int| 0 <= i < s.drop_last().len() implies (#[trigger] digit_value(
                s.drop_last()[i],
                radix,
            )) is Some by {
                assert(s.drop_last()[i] == s[i]);
            }
        }
        lemma_number_nonneg(s.drop_last(), radix);
        assert(digit_value(s[s.len() - 1], radix) is Some);
        let v = number_value(s.drop_last(), radix);
        assert(v * radix >= 0) by (nonlinear_arith)
            requires
                v >= 0,
                radix >= 1,
        ;
    }
}

fn digit(c: u8, radix: u32) -> (r: Option<u32>)
    ensures
        r matches Some(d) ==> digit_value(c, radix) == Some(d as int) && d < 16,
        r is None ==> digit_value(c, radix) is None,
{
    if 0x30 <= c && c <= 0x39 && ((c - 0x30) as u32) < radix {
        Some((c - 0x30) as u32)
    } else if radix == 16 && 0x61 <= c && c <= 0x66 {
        Some((c - 0x61 + 10) as u32)
    } else if radix == 16 && 0x41 <= c && c <= 0x46 {
        Some((c - 0x41 + 10) as u32)
    } else {
        None
    }
}

/// The number that the digits of `s` from `start` on write in base `radix`,
/// if there is at least one digit, all are digits, and it is at most `max`.
fn parse_number(s: &[u8], start: usize, radix: u32, max: u32) -> (r: Option<u32>)
    requires
        radix == 10 || radix == 16,
        start <= s@.len(),
    ensures
        r is Some <==> start < s@.len() && all_digits(s@.subrange(start as int, s@.len() as int), radix)
            && number_value(s@.subrange(start as int, s@.len() as int), radix) <= max,
        r matches Some(v) ==> v == number_value(s@.subrange(start as int, s@.len() as int), radix),
{
    let ghost d = s@.subrange(start as int, s@.len() as int);
    if start >= s.len() {
        return None;
    }
    let mut acc: u64 = 0;
    let mut i: usize = start;
    while i < s.len()
        invariant
            start <= i <= s@.len(),
            radix == 10 || radix == 16,
            d == s@.subrange(start as int, s@.len() as int),
            all_digits(d.subrange(0, i - start), radix),
            acc == number_value(d.subrange(0, i - start), radix),
            acc <= max,
        decreases s@.len() - i,
    {
        let ghost k = i - start;
        let ghost pre = d.subrange(0, k);
        let ghost next = d.subrange(0, k + 1);
        proof {
            assert(next.drop_last() =~= pre);
            assert(next.last() == s@[i as int]);
        }
        match digit(s[i], radix) {
            None => {
                proof {
                    assert(digit_value(d[k], radix) is None);
                }
                return None;
            },
            Some(v) => {
                assert(acc * (radix as u64) <= 0x10_0000_0000) by (nonlinear_arith)
                    requires
                        acc <= 0xFFFF_FFFF,
                        radix <= 16,
                ;
                let next_acc = acc * (radix as u64) + (v as u64);
                proof {
                    assert(all_digits(next, radix)) by {
                        assert forall|j: int| 0 <= j < next.len() implies (#[trigger] digit_value(
                            next[j],
                            radix,
                        )) is Some by {
                            if j < k {
                                assert(next[j] == pre[j]);
                            }
                        }
                    }
                    assert(next_acc == number_value(next, radix));
                }
                if next_acc > max as u64 {
                    proof {
                        if all_digits(d, radix) {
                            lemma_number_grows(d, radix, k + 1, d.len() as int);
                            assert(d.subrange(0, d.len() as int) =~= d);
                        }
                    }
                    return None;
                }
                acc = next_acc;
            },
        }
        i = i + 1;
    }
    proof {
        assert(d.subrange(0, d.len() as int) =~= d);
    }
    Some(acc as u32)
}

/// A breakpoint address: hexadecimal digits, with or without `0x`, at most
/// 0xFFFF.
pub fn parse_hex_addr(s: &[u8]) -> (r: Option<u16>)
    ensures
        ({
            let d = strip(s@, seq![0x30u8, 0x78u8]);
            &&& r is Some <==> d.len() > 0 && all_digits(d, 16) && number_value(d, 16) <= 0xFFFF
            &&& r matches Some(v) ==> v == number_value(d, 16)
        }),
{
    let start: usize = if s.len() >= 2 && s[0] == 0x30 && s[1] == 0x78 {
        2
    } else {
        0
    };
    proof {
        let p = seq![0x30u8, 0x78u8];
        if s@.len() >= 2 && s@[0] == 0x30 && s@[1] == 0x78 {
            assert(s@.subrange(0, 2) =~= p);
        } else if s@.len() >= 2 {
            assert(s@.subrange(0, 2)[0] == s@[0] && s@.subrange(0, 2)[1] == s@[1]);
            assert(s@.subrange(0, 2) != p);
        }
        assert(s@.subrange(0, s@.len() as int) =~= s@);
    }
    match parse_number(s, start, 16, 0xFFFF) {
        Some(v) => Some(v as u16),
        None => None,
    }
}

/// The number `n` of a breakpoint name `break_<n>`.
pub fn parse_break_name(s: &[u8]) -> (r: Option<u32>)
    ensures
        ({
            let p = seq![0x62u8, 0x72u8, 0x65u8, 0x61u8, 0x6Bu8, 0x5Fu8];
            &&& r is Some <==> s@.len() > p.len() && s@.subrange(0, p.len() as int) == p
                && all_digits(strip(s@, p), 10) && number_value(strip(s@, p), 10) <= u32::MAX
            &&& r matches Some(v) ==> v == number_value(strip(s@, p), 10)
        }),
{
    let ghost p = seq![0x62u8, 0x72u8, 0x65u8, 0x61u8, 0x6Bu8, 0x5Fu8];
    if s.len() < 6 || s[0] != 0x62 || s[1] != 0x72 || s[2] != 0x65 || s[3] != 0x61 || s[4] != 0x6B
        || s[5] != 0x5F {
        proof {
            if s@.len() >= 6 {
                let q = s@.subrange(0, 6);
                assert(q[0] == s@[0] && q[1] == s@[1] && q[2] == s@[2] && q[3] == s@[3] && q[4]
                    == s@[4] && q[5] == s@[5]);
                assert(q != p);
            }
        }
        return None;
    }
    assert(s@.subrange(0, 6) =~= p);
    parse_number(s, 6, 10, u32::MAX)
}

/// A command line: its first token picks the command (`r`, `s`, `b`, `x`,
/// `d`, `v`, `e`), and `arg` is the token after it, read for `b` (an
/// address) and `x` (a breakpoint name).
pub fn parse_command(cmd: &[u8], arg: &[u8]) -> (r: Command)
    ensures
        cmd@ == seq![0x72u8] ==> r == Command::Run,
        cmd@ == seq![0x73u8] ==> r == Command::Step,
        cmd@ == seq![0x64u8] ==> r == Command::DumpRegs,
        cmd@ == seq![0x76u8] ==> r == Command::Verbose,
        cmd@ == seq![0x65u8] ==> r == Command::Exit,
        cmd@ == seq![0x62u8] ==> r == match parse_hex_addr_spec(arg@) {
            Some(a) => Command::SetBreak(a),
            None => Command::Unknown,
        },
        cmd@ == seq![0x78u8] ==> r == match parse_break_name_spec(arg@) {
            Some(n) => Command::RemoveBreak(n),
            None => Command::Unknown,
        },
        cmd@.len() != 1 || !(cmd@[0] == 0x72 || cmd@[0] == 0x73 || cmd@[0] == 0x64 || cmd@[0]
            == 0x76 || cmd@[0] == 0x65 || cmd@[0] == 0x62 || cmd@[0] == 0x78) ==> r
            == Command::Unknown,
{
    if cmd.len() != 1 {
        return Command::Unknown;
    }
    proof {
        assert(cmd@ == seq![cmd@[0]]);
    }
    match cmd[0] {
        0x72 => Command::Run,
        0x73 => Command::Step,
        0x64 => Command::DumpRegs,
        0x76 => Command::Verbose,
        0x65 => Command::Exit,
        0x62 => match parse_hex_addr(arg) {
            Some(a) => Command::SetBreak(a),
            None => Command::Unknown,
        },
        0x78 => match parse_break_name(arg) {
            Some(n) => Command::RemoveBreak(n),
            None => Command::Unknown,
        },
        _ => Command::Unknown,
    }
}

/// What `parse_hex_addr` returns for `s`.
pub open spec fn parse_hex_addr_spec(s: Seq<u8>) -> Option<u16> {
    let d = strip(s, seq![0x30u8, 0x78u8]);
    if d.len() > 0 && all_digits(d, 16) && number_value(d, 16) <= 0xFFFF {
        Some(number_value(d, 16) as u16)
    } else {
        None
    }
}

/// What `parse_break_name` returns for `s`.
pub open spec fn parse_break_name_spec(s: Seq<u8>) -> Option<u32> {
    let p = seq![0x62u8, 0x72u8, 0x65u8, 0x61u8, 0x6Bu8, 0x5Fu8];
    if s.len() > p.len() && s.subrange(0, p.len() as int) == p && all_digits(strip(s, p), 10)
        && number_value(strip(s, p), 10) <= u32::MAX {
        Some(number_value(strip(s, p), 10) as u32)
    } else {
        None
    }
}

} // verus!
