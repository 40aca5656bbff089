//! The memory bus: sixteen-bit addresses mapped onto backing regions, with the
//! region locks that the picture unit holds while it scans and draws.
use vstd::prelude::*;

verus! {

pub const ROM1_BASE: u16 = 0x4000;
pub const VRAM_BASE: u16 = 0x8000;
pub const ERAM_BASE: u16 = 0xA000;
pub const WRAM_BASE: u16 = 0xC000;
pub const ECHO_BASE: u16 = 0xE000;
pub const OAM_BASE: u16 = 0xFE00;
pub const PROHIBITED_BASE: u16 = 0xFEA0;
pub const IO_REGS_BASE: u16 = 0xFF00;
pub const HRAM_BASE: u16 = 0xFF80;
/// Interrupt enable mask.
pub const IE: u16 = 0xFFFF;
/// Interrupt request mask.
pub const IF: u16 = 0xFF0F;
pub const PALETTES_BASE: u16 = 0xFF47;
pub const PALETTES_END: u16 = 0xFF50;
pub const LCDC: u16 = 0xFF40;
pub const STAT: u16 = 0xFF41;
pub const SCY: u16 = 0xFF42;
pub const SCX: u16 = 0xFF43;
pub const LY: u16 = 0xFF44;
pub const WY: u16 = 0xFF4A;
pub const WX: u16 = 0xFF4B;

/// Number of addressable bytes.
pub const BUS_SIZE: usize = 0x10000;

/// The interrupt registers: the master enable, the enable mask and the
/// request mask.
#[derive(Clone, Copy, Debug)]
pub struct IntrState {
    pub ime: u8,
    pub ie: u8,
    pub iflag: u8,
}

/// The bus as a value: one byte per address (echo RAM has no cells of its
/// own), the master interrupt enable and the three region locks.
pub struct BusModel {
    pub mem: Seq<u8>,
    pub ime: u8,
    pub vram_locked: bool,
    pub oam_locked: bool,
    pub palettes_locked: bool,
}

pub open spec fn is_rom(addr: u16) -> bool {
    addr < VRAM_BASE
}

pub open spec fn in_vram(addr: u16) -> bool {
    VRAM_BASE <= addr < ERAM_BASE
}

pub open spec fn in_oam(addr: u16) -> bool {
    OAM_BASE <= addr < PROHIBITED_BASE
}

pub open spec fn in_palettes(addr: u16) -> bool {
    PALETTES_BASE <= addr < PALETTES_END
}

pub open spec fn is_prohibited(addr: u16) -> bool {
    PROHIBITED_BASE <= addr < IO_REGS_BASE
}

/// The cell that backs `addr`: echo RAM mirrors work RAM.
pub open spec fn cell_of(addr: u16) -> int {
    if ECHO_BASE <= addr < OAM_BASE {
        addr - 0x2000
    } else {
        addr as int
    }
}

impl BusModel {
    pub open spec fn wf(self) -> bool {
        self.mem.len() == BUS_SIZE && self.ime <= 1
    }

    pub open spec fn locked(self, addr: u16) -> bool {
        (in_vram(addr) && self.vram_locked) || (in_oam(addr) && self.oam_locked) || (in_palettes(
            addr,
        ) && self.palettes_locked)
    }

    /// What the CPU reads at `addr`.
    pub open spec fn read(self, addr: u16) -> u8 {
        if is_prohibited(addr) || self.locked(addr) {
            0xFF
        } else {
            self.mem[cell_of(addr)]
        }
    }

    /// A CPU write to `addr` takes effect.
    pub open spec fn writable(self, addr: u16) -> bool {
        !is_rom(addr) && !is_prohibited(addr) && !self.locked(addr)
    }

    /// The bus after the CPU writes `val` to `addr`.
    pub open spec fn write(self, addr: u16, val: u8) -> BusModel {
        if self.writable(addr) {
            BusModel { mem: self.mem.update(cell_of(addr), val), ..self }
        } else {
            self
        }
    }

    pub open spec fn ie(self) -> u8 {
        self.mem[IE as int]
    }

    pub open spec fn iflag(self) -> u8 {
        self.mem[IF as int]
    }
}

pub struct AddrBus {
    pub mem: Vec<u8>,
    pub ime: u8,
    pub vram_locked: bool,
    pub oam_locked: bool,
    pub palettes_locked: bool,
}

impl View for AddrBus {
    type V = BusModel;

    open spec fn view(&self) -> BusModel {
        BusModel {
            mem: self.mem@,
            ime: self.ime,
            vram_locked: self.vram_locked,
            oam_locked: self.oam_locked,
            palettes_locked: self.palettes_locked,
        }
    }
}

fn resolve(addr: u16) -> (r: usize)
    ensures
        r == cell_of(addr),
{
    if ECHO_BASE <= addr && addr < OAM_BASE {
        (addr - 0x2000) as usize
    } else {
        addr as usize
    }
}

impl AddrBus {
    /// A bus over `addr_bus`, one byte per address, with interrupts disabled
    /// and no region locked.
    pub fn new(addr_bus: Vec<u8>) -> (r: AddrBus)
        requires
            addr_bus@.len() == BUS_SIZE,
        ensures
            r@.wf(),
            r@.mem == addr_bus@,
            r@.ime == 0,
            !r@.vram_locked && !r@.oam_locked && !r@.palettes_locked,
    {
        AddrBus {
            mem: addr_bus,
            ime: 0,
            vram_locked: false,
            oam_locked: false,
            palettes_locked: false,
        }
    }

    pub fn get_intr_state(&self) -> (r: IntrState)
        requires
            self@.wf(),
        ensures
            r.ime == self@.ime,
            r.ie == self@.ie(),
            r.iflag == self@.iflag(),
    {
        IntrState { ime: self.ime, ie: self.mem[IE as usize], iflag: self.mem[IF as usize] }
    }

    /// Replaces the interrupt registers; any non-zero `ime` enables.
    pub fn set_intr_state(&mut self, new_state: IntrState)
        requires
            old(self)@.wf(),
        ensures
            final(self)@ == (BusModel {
                mem: old(self)@.mem.update(IE as int, new_state.ie).update(
                    IF as int,
                    new_state.iflag,
                ),
                ime: if new_state.ime == 0 {
                    0u8
                } else {
                    1u8
                },
                ..old(self)@
            }),
    {
        self.mem.set(IE as usize, new_state.ie);
        self.mem.set(IF as usize, new_state.iflag);
        self.ime = if new_state.ime == 0 {
            0
        } else {
            1
        };
    }

    fn is_locked(&self, addr: u16) -> (r: bool)
        ensures
            r == self@.locked(addr),
    {
        (VRAM_BASE <= addr && addr < ERAM_BASE && self.vram_locked) || (OAM_BASE <= addr && addr
            < PROHIBITED_BASE && self.oam_locked) || (PALETTES_BASE <= addr && addr < PALETTES_END
            && self.palettes_locked)
    }

    /// The byte the CPU reads at `addr`: 0xFF in the prohibited area and in a
    /// locked region.
    pub fn get(&self, addr: u16) -> (r: u8)
        requires
            self@.wf(),
        ensures
            r == self@.read(addr),
    {
        if PROHIBITED_BASE <= addr && addr < IO_REGS_BASE {
            0xFF
        } else if self.is_locked(addr) {
            0xFF
        } else {
            self.mem[resolve(addr)]
        }
    }

    /// A CPU write: dropped for ROM, the prohibited area and locked regions.
    pub fn set(&mut self, addr: u16, val: u8)
        requires
            old(self)@.wf(),
        ensures
            final(self)@ == old(self)@.write(addr, val),
    {
        if addr < VRAM_BASE || (PROHIBITED_BASE <= addr && addr < IO_REGS_BASE) || self.is_locked(
            addr,
        ) {
        } else {
            let i = resolve(addr);
            self.mem.set(i, val);
        }
    }
}

} // verus!
