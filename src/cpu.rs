//! One fetch-decode-execute iteration, interrupt delivery, HALT and STOP
//! wake-up, the delayed EI, and construction of a console from a boot ROM.
use vstd::prelude::*;
use crate::block_cb;
use crate::block_one;
use crate::block_three::{self, illegal, is_illegal};
use crate::block_two;
use crate::block_zero;
use crate::bus::{AddrBus, BusModel, BUS_SIZE, IF};
use crate::console::{Console, Machine};
use crate::intr::{get_jump_vector, highest_priority, priority_mask, vector_of, JOYPAD};
use crate::registers::Registers;

verus! {

/// Why a step could not run.
#[derive(Clone, Copy, Debug, PartialEq, Eq, Structural)]
pub enum StepError {
    /// The byte at `pc` is no opcode.
    IllegalOpcode { opcode: u8, pc: u16 },
}

/// Size of the cartridge header written at 0x0100.
pub const HEADER_SIZE: usize = 52;

/// Where the cartridge header starts.
pub const HEADER_BASE: usize = 0x100;

/// The cartridge header: NOP, JP 0x0150, then the logo.
pub open spec fn cartridge_header() -> Seq<u8> {
    seq![
        0x00, 0xC3, 0x50, 0x01,
        0xCE, 0xED, 0x66, 0x66, 0xCC, 0x0D, 0x00, 0x0B,
        0x03, 0x73, 0x00, 0x83, 0x00, 0x0C, 0x00, 0x0D,
        0x00, 0x08, 0x11, 0x1F, 0x88, 0x89, 0x00, 0x0E,
        0xDC, 0xCC, 0x6E, 0xE6, 0xDD, 0xDD, 0xD9, 0x99,
        0xBB, 0xBB, 0x67, 0x63, 0x6E, 0x0E, 0xEC, 0xCC,
        0xDD, 0xDC, 0x99, 0x9F, 0xBB, 0xB9, 0x33, 0x3E,
    ]
}

/// The bus contents at power-on: the boot ROM at 0, the header at 0x0100,
/// zero elsewhere.
pub open spec fn initial_mem(boot_rom: Seq<u8>) -> Seq<u8> {
    Seq::new(
        BUS_SIZE as nat,
        |i: int|
            if i < boot_rom.len() {
                boot_rom[i]
            } else if HEADER_BASE <= i < HEADER_BASE + HEADER_SIZE {
                cartridge_header()[i - HEADER_BASE]
            } else {
                0u8
            },
    )
}

impl Machine {
    /// HALT ends once an interrupt is pending, STOP once the joypad requests
    /// one.
    pub open spec fn woken(self) -> Machine {
        Machine {
            halted: self.halted && self.pending() == 0,
            stopped: self.stopped && self.bus.iflag() & JOYPAD == 0,
            ..self
        }
    }

    /// An interrupt is delivered before the next instruction.
    pub open spec fn can_deliver(self) -> bool {
        self.bus.ime == 1 && self.pending() != 0
    }

    /// Delivery of the highest-priority pending interrupt: its request bit
    /// and IME cleared, PC pushed, PC set to its vector.
    pub open spec fn deliver(self) -> Machine {
        let mask = priority_mask(self.pending());
        let m = Machine {
            bus: BusModel { mem: self.bus.mem.update(IF as int, self.bus.iflag() & !mask), ime: 0, ..self.bus },
            ..self
        };
        m.push16(self.regs.pc).set_pc(vector_of(mask))
    }

    /// After the opcode byte is read: PC past it, unless HALT left the
    /// opcode to be read twice.
    pub open spec fn fetched(self) -> Machine {
        if self.halt_bug {
            Machine { halt_bug: false, ..self }
        } else {
            self.advance(1)
        }
    }

    /// The instruction whose opcode is `op`, PC already past it.
    #[verifier::opaque]
    pub open spec fn execute_op(self, op: u8) -> Machine {
        if op == 0xCB {
            self.advance(1).block_cb(self.imm8())
        } else if op < 0x40 {
            self.block_zero(op)
        } else if op < 0x80 {
            self.block_one(op)
        } else if op < 0xC0 {
            self.block_two(op)
        } else {
            self.block_three(op)
        }
    }

    /// The step cannot run: the CPU is awake, no interrupt is delivered, and
    /// the byte at PC is no opcode.
    pub open spec fn step_fault(self) -> Option<StepError> {
        let m = self.woken();
        if m.halted || m.stopped || m.can_deliver() || !is_illegal(m.imm8()) {
            None
        } else {
            Some(StepError::IllegalOpcode { opcode: m.imm8(), pc: m.regs.pc })
        }
    }

    /// The console after one step: a waiting CPU stays idle; otherwise a
    /// pending interrupt is delivered, or else one instruction runs, after
    /// which an EI from the step before takes effect. A faulting step stops
    /// with PC past the opcode.
    pub open spec fn step(self) -> Machine {
        let m = self.woken();
        if m.halted || m.stopped {
            m
        } else if m.can_deliver() {
            m.deliver()
        } else if is_illegal(m.imm8()) {
            m.fetched()
        } else {
            let e = m.fetched().execute_op(m.imm8());
            if m.pending_ei {
                Machine { pending_ei: false, ..e.set_ime(1) }
            } else {
                e
            }
        }
    }

    /// The console after `n` steps, stopping at the first fault.
    pub open spec fn run(self, n: nat) -> Machine
        decreases n,
    {
        if n == 0 {
            self
        } else {
            let p = self.run((n - 1) as nat);
            if p.step_fault() is Some {
                p
            } else {
                p.step()
            }
        }
    }
}

impl Console {
    /// Builds a console whose bus holds `boot_rom` at address 0 and the
    /// cartridge header at 0x0100; refused when the boot ROM is longer than
    /// 256 bytes.
    pub fn init(boot_rom: Vec<u8>) -> (r: Result<Console, String>)
        ensures
            boot_rom@.len() <= 0x100 <==> r is Ok,
            r matches Err(e) ==> e@ == "Boot rom too long"@,
            r matches Ok(c) ==> c@ == (Machine {
                regs: Registers {
                    a: 0,
                    b: 0,
                    c: 0,
                    d: 0,
                    e: 0,
                    h: 0,
                    l: 0,
                    zf: false,
                    nf: false,
                    hf: false,
                    cf: false,
                    sp: 0xFFFE,
                    pc: 0,
                },
                bus: BusModel {
                    mem: initial_mem(boot_rom@),
                    ime: 0,
                    vram_locked: false,
                    oam_locked: false,
                    palettes_locked: false,
                },
                pending_ei: false,
                halted: false,
                halt_bug: false,
                stopped: false,
            }),
            r matches Ok(c) ==> c@.wf(),
    {
        if boot_rom.len() > 0x100 {
            return Err("Boot rom too long".to_owned());
        }
        let header: Vec<u8> = vec![
            0x00, 0xC3, 0x50, 0x01,
            0xCE, 0xED, 0x66, 0x66, 0xCC, 0x0D, 0x00, 0x0B,
            0x03, 0x73, 0x00, 0x83, 0x00, 0x0C, 0x00, 0x0D,
            0x00, 0x08, 0x11, 0x1F, 0x88, 0x89, 0x00, 0x0E,
            0xDC, 0xCC, 0x6E, 0xE6, 0xDD, 0xDD, 0xD9, 0x99,
            0xBB, 0xBB, 0x67, 0x63, 0x6E, 0x0E, 0xEC, 0xCC,
            0xDD, 0xDC, 0x99, 0x9F, 0xBB, 0xB9, 0x33, 0x3E,
        ];
        assert(header@ =~= cartridge_header());
        let mut mem: Vec<u8> = Vec::new();
        let mut i: usize = 0;
        while i < BUS_SIZE
            invariant
                0 <= i <= BUS_SIZE,
                boot_rom@.len() <= 0x100,
                header@ == cartridge_header(),
                mem@.len() == i,
                forall|j: int| 0 <= j < i ==> #[trigger] mem@[j] == initial_mem(boot_rom@)[j],
            decreases BUS_SIZE - i,
        {
            let b: u8 = if i < boot_rom.len() {
                boot_rom[i]
            } else if HEADER_BASE <= i && i < HEADER_BASE + HEADER_SIZE {
                header[i - HEADER_BASE]
            } else {
                0
            };
            mem.push(b);
            i = i + 1;
        }
        assert(mem@ =~= initial_mem(boot_rom@));
        let c = Console {
            regs: Registers {
                a: 0,
                b: 0,
                c: 0,
                d: 0,
                e: 0,
                h: 0,
                l: 0,
                zf: false,
                nf: false,
                hf: false,
                cf: false,
                sp: 0xFFFE,
                pc: 0,
            },
            bus: AddrBus::new(mem),
            pending_ei: false,
            halted: false,
            halt_bug: false,
            stopped: false,
        };
        Ok(c)
    }

    /// IE and IF both set, as a five-bit mask.
    fn pending_interrupts(&self) -> (r: u8)
        requires
            self@.wf(),
        ensures
            r == self@.pending(),
    {
        let s = self.bus.get_intr_state();
        s.ie & s.iflag & 0x1F
    }

    /// Delivers the interrupt of source `mask`.
    fn handle_interrupt(&mut self, mask: u8)
        requires
            old(self)@.wf(),
            old(self)@.pending() != 0,
            mask == priority_mask(old(self)@.pending()),
        ensures
            final(self)@ == old(self)@.deliver(),
            final(self)@.wf(),
    {
        let iflag = self.bus.mem[IF as usize];
        self.bus.mem.set(IF as usize, iflag & !mask);
        self.bus.ime = 0;
        let pc = self.get_ip();
        self.stk_push16(pc);
        self.set_ip(get_jump_vector(mask));
    }

    /// One step: wakes a halted or stopped CPU when it may, delivers a
    /// pending interrupt if IME allows, or else runs one instruction; an EI
    /// of the previous step then sets IME.
    pub fn step(&mut self) -> (r: Result<(), StepError>)
        requires
            old(self)@.wf(),
        ensures
            final(self)@ == old(self)@.step(),
            final(self)@.wf(),
            r is Ok <==> old(self)@.step_fault() is None,
            r matches Err(e) ==> old(self)@.step_fault() == Some(e),
    {
        let pending = self.pending_interrupts();
        if self.halted && pending != 0 {
            self.halted = false;
        }
        if self.stopped && self.bus.mem[IF as usize] & JOYPAD != 0 {
            self.stopped = false;
        }
        if self.halted || self.stopped {
            return Ok(());
        }
        if self.bus.ime == 1 && pending != 0 {
            let mask = highest_priority(pending);
            self.handle_interrupt(mask);
            return Ok(());
        }
        assert(self@ == old(self)@.woken());
        self.run_instruction()
    }

    /// Runs the instruction whose opcode is `op`; PC is already past it.
    fn dispatch_op(&mut self, op: u8)
        requires
            old(self)@.wf(),
            !is_illegal(op),
        ensures
            final(self)@ == old(self)@.execute_op(op),
            final(self)@.wf(),
    {
        reveal(Machine::execute_op);
        if op == 0xCB {
            let instr = self.fetch_byte();
            block_cb::dispatch(self, instr);
        } else if op < 0x40 {
            block_zero::dispatch(self, op);
        } else if op < 0x80 {
            block_one::dispatch(self, op);
        } else if op < 0xC0 {
            block_two::dispatch(self, op);
        } else {
            block_three::dispatch(self, op);
        }
    }

    /// Reads the opcode at PC and runs its instruction; an EI of the
    /// previous step then sets IME.
    fn run_instruction(&mut self) -> (r: Result<(), StepError>)
        requires
            old(self)@.wf(),
        ensures
            final(self)@.wf(),
            !is_illegal(old(self)@.imm8()) ==> r is Ok && final(self)@ == {
                let e = old(self)@.fetched().execute_op(old(self)@.imm8());
                if old(self)@.pending_ei {
                    Machine { pending_ei: false, ..e.set_ime(1) }
                } else {
                    e
                }
            },
            is_illegal(old(self)@.imm8()) ==> final(self)@ == old(self)@.fetched() && r == Err::<
                (),
                StepError,
            >(StepError::IllegalOpcode { opcode: old(self)@.imm8(), pc: old(self).regs.pc }),
    {
        let ei_was_pending = self.pending_ei;
        let curr_ip = self.get_ip();
        let op = self.bus.get(curr_ip);
        if self.halt_bug {
            self.halt_bug = false;
        } else {
            self.regs.pc = curr_ip.wrapping_add(1);
        }
        if illegal(op) {
            return Err(StepError::IllegalOpcode { opcode: op, pc: curr_ip });
        }
        self.dispatch_op(op);
        if ei_was_pending {
            self.set_ime(1);
            self.pending_ei = false;
        }
        Ok(())
    }

    /// Runs `steps` steps, stopping at the first that faults.
    pub fn execute(&mut self, steps: u64) -> (r: Result<(), StepError>)
        requires
            old(self)@.wf(),
        ensures
            final(self)@.wf(),
            r is Ok ==> final(self)@ == old(self)@.run(steps as nat),
            r matches Err(e) ==> exists|k: nat|
                k < steps && old(self)@.run(k).step_fault() == Some(e) && final(self)@ == old(
                    self,
                )@.run(k).step(),
    {
        let mut i: u64 = 0;
        while i < steps
            invariant
                0 <= i <= steps,
                self@.wf(),
                self@ == old(self)@.run(i as nat),
            decreases steps - i,
        {
            let ghost before = self@;
            match self.step() {
                Ok(()) => {},
                Err(e) => {
                    assert(old(self)@.run(i as nat).step_fault() == Some(e));
                    return Err(e);
                },
            }
            assert(old(self)@.run((i + 1) as nat) == before.step());
            i = i + 1;
        }
        Ok(())
    }
}

} // verus!
