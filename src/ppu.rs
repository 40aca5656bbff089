//! The picture unit: a per-line state machine (OAM scan, drawing, HBlank)
//! over 144 drawn lines and 10 VBlank lines, with the OAM scan, a background
//! fetcher feeding a pixel FIFO, and a framebuffer of shades.
use std::collections::VecDeque;
use vstd::prelude::*;
use crate::bus::{AddrBus, BUS_SIZE, IF, LCDC, LY, OAM_BASE, SCX, SCY, STAT, WX, WY};

verus! {

pub const SCREEN_WIDTH: usize = 160;
pub const SCREEN_HEIGHT: usize = 144;
/// Lines per frame, VBlank included.
pub const LINES: u8 = 154;
/// Sprites in OAM.
pub const OAM_SPRITES: usize = 40;
/// Sprites kept per line.
pub const MAX_LINE_SPRITES: usize = 10;
/// Background palette register.
pub const BGP: u16 = 0xFF47;

pub const MODE_HBLANK: u8 = 0;
pub const MODE_VBLANK: u8 = 1;
pub const MODE_OAM_SCAN: u8 = 2;
pub const MODE_DRAWING: u8 = 3;

#[derive(Clone, Copy, Debug)]
pub struct Sprite {
    pub y_pos: u8,
    pub x_pos: u8,
    pub tile_idx: u8,
    pub attrs: u8,
}

/// Colour index (0 to 3) of pixel `idx` of a tile row, pixel 0 leftmost,
/// from its two bitplanes.
pub open spec fn color_of(low: u8, high: u8, idx: u8) -> u8 {
    (((high >> (7 - idx) as u8) & 1) << 1u8) | ((low >> (7 - idx) as u8) & 1)
}

/// The shade that palette `bgp` gives colour index `color`.
pub open spec fn shade_of(bgp: u8, color: u8) -> u8 {
    (bgp >> (2 * color) as u8) & 3
}

pub open spec fn sprite_height(lcdc: u8) -> int {
    if lcdc & 0x04 != 0 {
        16
    } else {
        8
    }
}

/// Sprite `k` of OAM.
pub open spec fn sprite_at(mem: Seq<u8>, k: int) -> Sprite {
    let base = OAM_BASE as int + 4 * k;
    Sprite { y_pos: mem[base], x_pos: mem[base + 1], tile_idx: mem[base + 2], attrs: mem[base + 3] }
}

/// Line `ly` crosses the sprite: `ly + 16` lies in `[y, y + height)`.
pub open spec fn on_line(s: Sprite, ly: u8, height: int) -> bool {
    s.y_pos as int <= ly as int + 16 < s.y_pos as int + height
}

/// The sprites among the first `k` of OAM that line `ly` crosses, in OAM
/// order, at most ten.
pub open spec fn oam_scan(mem: Seq<u8>, ly: u8, height: int, k: nat) -> Seq<Sprite>
    decreases k,
{
    if k == 0 {
        Seq::empty()
    } else {
        let prev = oam_scan(mem, ly, height, (k - 1) as nat);
        let s = sprite_at(mem, k - 1);
        if prev.len() < MAX_LINE_SPRITES && on_line(s, ly, height) {
            prev.push(s)
        } else {
            prev
        }
    }
}

/// Background row of the screen at line `ly`: LY plus SCY.
pub open spec fn bg_row(mem: Seq<u8>, ly: u8) -> u8 {
    ly.wrapping_add(mem[SCY as int])
}

/// Address of the tile-map entry of the `tile_x`-th tile fetched on line
/// `ly`; LCDC bit 3 picks the map at 0x9C00 over the one at 0x9800.
pub open spec fn tile_map_addr(mem: Seq<u8>, ly: u8, tile_x: int) -> int {
    let base: int = if mem[LCDC as int] & 0x08 != 0 {
        0x9C00
    } else {
        0x9800
    };
    base + 32 * (bg_row(mem, ly) / 8) as int + (tile_x + mem[SCX as int] / 8) % 32
}

/// Address of tile `idx`: unsigned from 0x8000 when LCDC bit 4 is set, else
/// signed around 0x9000.
pub open spec fn tile_data_addr(lcdc: u8, idx: u8) -> int {
    if lcdc & 0x10 != 0 {
        0x8000 + 16 * idx as int
    } else {
        0x9000 + 16 * (idx as i8) as int
    }
}

/// Address of the low bitplane of the row that line `ly` shows of the
/// `tile_x`-th tile; the high bitplane follows it.
pub open spec fn tile_row_addr(mem: Seq<u8>, ly: u8, tile_x: int) -> int {
    tile_data_addr(mem[LCDC as int], mem[tile_map_addr(mem, ly, tile_x)]) + 2 * (bg_row(mem, ly)
        % 8) as int
}

/// Colour index of background pixel `x` of line `ly`.
pub open spec fn bg_color(mem: Seq<u8>, ly: u8, x: int) -> u8 {
    let a = tile_row_addr(mem, ly, x / 8);
    color_of(mem[a], mem[a + 1], (x % 8) as u8)
}

/// First pixel of line `ly` that the window covers, or the screen width when
/// it covers none: the window shows when LCDC bit 5 is set, from line WY on,
/// from pixel WX - 7 on.
pub open spec fn window_start(mem: Seq<u8>, ly: u8) -> int {
    let wx = mem[WX as int] as int;
    if mem[LCDC as int] & 0x20 != 0 && ly >= mem[WY as int] && wx < SCREEN_WIDTH + 7 {
        if wx >= 7 {
            wx - 7
        } else {
            0
        }
    } else {
        SCREEN_WIDTH as int
    }
}

/// Address of the low bitplane of the row that line `ly` shows of the
/// `tile_x`-th window tile; LCDC bit 6 picks the map at 0x9C00.
pub open spec fn window_row_addr(mem: Seq<u8>, ly: u8, tile_x: int) -> int {
    let base: int = if mem[LCDC as int] & 0x40 != 0 {
        0x9C00
    } else {
        0x9800
    };
    let row = (ly - mem[WY as int]) as u8;
    tile_data_addr(mem[LCDC as int], mem[base + 32 * (row / 8) as int + tile_x % 32]) + 2 * (row
        % 8) as int
}

/// Colour index of pixel `x` of the window, counted from its left edge, on
/// line `ly`.
pub open spec fn window_color(mem: Seq<u8>, ly: u8, x: int) -> u8 {
    let a = window_row_addr(mem, ly, x / 8);
    color_of(mem[a], mem[a + 1], (x % 8) as u8)
}

/// What the fetcher yields for pixel `x` of a layer: background pixels count
/// from the screen's left edge, window pixels from the window's.
pub open spec fn layer_color(mem: Seq<u8>, ly: u8, window: bool, x: int) -> u8 {
    if window {
        window_color(mem, ly, x)
    } else {
        bg_color(mem, ly, x)
    }
}

/// Colour index of screen pixel `x` of line `ly`.
pub open spec fn line_color(mem: Seq<u8>, ly: u8, x: int) -> u8 {
    let ws = window_start(mem, ly);
    if x >= ws {
        window_color(mem, ly, x - ws)
    } else {
        bg_color(mem, ly, x)
    }
}

/// The mode and line that follow `(mode, ly)`: 2, 3, 0 on each of lines 0
/// to 143, then mode 1 on lines 144 to 153.
pub open spec fn next_state(mode: u8, ly: u8) -> (u8, u8) {
    if mode == MODE_OAM_SCAN {
        (MODE_DRAWING, ly)
    } else if mode == MODE_DRAWING {
        (MODE_HBLANK, ly)
    } else if mode == MODE_HBLANK {
        if ly + 1 < SCREEN_HEIGHT {
            (MODE_OAM_SCAN, (ly + 1) as u8)
        } else {
            (MODE_VBLANK, (ly + 1) as u8)
        }
    } else if ly + 1 < LINES {
        (MODE_VBLANK, (ly + 1) as u8)
    } else {
        (MODE_OAM_SCAN, 0)
    }
}

/// The bus contents after the unit enters `mode` on line `ly`: LY and the
/// mode bits of STAT written, and the VBlank request raised on entry to line
/// 144.
pub open spec fn registers_after(mem: Seq<u8>, mode: u8, ly: u8) -> Seq<u8> {
    let m = mem.update(LY as int, ly).update(STAT as int, (mem[STAT as int] & 0xFC) | mode);
    if mode == MODE_VBLANK && ly as int == SCREEN_HEIGHT {
        m.update(IF as int, m[IF as int] | 1)
    } else {
        m
    }
}

pub fn get_color(low: u8, high: u8, idx: u8) -> (r: u8)
    requires
        idx < 8,
    ensures
        r == color_of(low, high, idx),
        r < 4,
{
    let r = (((high >> (7 - idx)) & 1) << 1u8) | ((low >> (7 - idx)) & 1);
    assert(r < 4) by (bit_vector)
        requires
            r == (((high >> (7 - idx) as u8) & 1) << 1u8) | ((low >> (7 - idx) as u8) & 1),
    ;
    r
}

fn shade(bgp: u8, color: u8) -> (r: u8)
    requires
        color < 4,
    ensures
        r == shade_of(bgp, color),
{
    (bgp >> (2 * color)) & 3
}

pub struct Ppu {
    pub mode: u8,
    pub ly: u8,
    pub sprite_buffer: Vec<Sprite>,
    pub fifo: VecDeque<u8>,
    /// One shade (0 to 3) per pixel, row by row.
    pub framebuffer: Vec<u8>,
}

impl Ppu {
    pub open spec fn wf(&self) -> bool {
        &&& self.framebuffer@.len() == SCREEN_WIDTH * SCREEN_HEIGHT
        &&& self.mode <= 3
        &&& self.ly < LINES
        &&& (self.mode == MODE_VBLANK) == (self.ly >= SCREEN_HEIGHT)
        &&& self.mode != MODE_DRAWING ==> self.fifo@.len() == 0
    }

    /// A unit at the last VBlank line, so that the first step starts line 0.
    pub fn new() -> (r: Ppu)
        ensures
            r.wf(),
            r.mode == MODE_VBLANK,
            r.ly == LINES - 1,
            r.sprite_buffer@.len() == 0,
            r.fifo@.len() == 0,
            forall|i: int| 0 <= i < r.framebuffer@.len() ==> r.framebuffer@[i] == 0,
    {
        let mut framebuffer: Vec<u8> = Vec::new();
        let mut i: usize = 0;
        while i < SCREEN_WIDTH * SCREEN_HEIGHT
            invariant
                i <= SCREEN_WIDTH * SCREEN_HEIGHT,
                framebuffer@.len() == i,
                forall|j: int| 0 <= j < i ==> framebuffer@[j] == 0,
            decreases SCREEN_WIDTH * SCREEN_HEIGHT - i,
        {
            framebuffer.push(0);
            i = i + 1;
        }
        Ppu {
            mode: MODE_VBLANK,
            ly: LINES - 1,
            sprite_buffer: Vec::new(),
            fifo: VecDeque::new(),
            framebuffer,
        }
    }

    /// Mode 2: the sprites that line `ly` crosses, at most ten, in OAM order.
    fn mode2(&mut self, bus: &AddrBus, ly: u8)
        requires
            bus@.wf(),
        ensures
            final(self).sprite_buffer@ == oam_scan(
                bus@.mem,
                ly,
                sprite_height(bus@.mem[LCDC as int]),
                OAM_SPRITES as nat,
            ),
            final(self).fifo == old(self).fifo,
            final(self).framebuffer == old(self).framebuffer,
            final(self).mode == old(self).mode,
            final(self).ly == old(self).ly,
    {
        let lcdc = bus.mem[LCDC as usize];
        let height: u16 = if lcdc & 0x04 != 0 {
            16
        } else {
            8
        };
        let ghost h = sprite_height(bus@.mem[LCDC as int]);
        self.sprite_buffer = Vec::new();
        let mut k: usize = 0;
        while k < OAM_SPRITES
            invariant
                bus@.wf(),
                k <= OAM_SPRITES,
                height as int == h,
                h == sprite_height(bus@.mem[LCDC as int]),
                self.sprite_buffer@ == oam_scan(bus@.mem, ly, h, k as nat),
                self.fifo == old(self).fifo,
                self.framebuffer == old(self).framebuffer,
                self.mode == old(self).mode,
                self.ly == old(self).ly,
            decreases OAM_SPRITES - k,
        {
            let base = OAM_BASE as usize + 4 * k;
            let s = Sprite {
                y_pos: bus.mem[base],
                x_pos: bus.mem[base + 1],
                tile_idx: bus.mem[base + 2],
                attrs: bus.mem[base + 3],
            };
            assert(s == sprite_at(bus@.mem, k as int));
            if self.sprite_buffer.len() < MAX_LINE_SPRITES && (s.y_pos as u16) <= (ly as u16) + 16
                && (ly as u16) + 16 < (s.y_pos as u16) + height {
                self.sprite_buffer.push(s);
            }
            k = k + 1;
        }
    }

    /// Address of the low bitplane of the row that line `ly` shows of the
    /// `tile_x`-th tile of the window (`window`) or of the background.
    fn tile_row(bus: &AddrBus, ly: u8, tile_x: u8, window: bool) -> (r: usize)
        requires
            bus@.wf(),
            window ==> ly >= bus@.mem[WY as int],
        ensures
            r + 1 < BUS_SIZE,
            r == if window {
                window_row_addr(bus@.mem, ly, tile_x as int)
            } else {
                tile_row_addr(bus@.mem, ly, tile_x as int)
            },
    {
        let lcdc = bus.mem[LCDC as usize];
        let (map_addr, row): (usize, u8) = if window {
            let row = ly - bus.mem[WY as usize];
            let map_base: usize = if lcdc & 0x40 != 0 {
                0x9C00
            } else {
                0x9800
            };
            (map_base + 32 * (row / 8) as usize + (tile_x as usize % 32), row)
        } else {
            let scx = bus.mem[SCX as usize];
            let row = ly.wrapping_add(bus.mem[SCY as usize]);
            let map_base: usize = if lcdc & 0x08 != 0 {
                0x9C00
            } else {
                0x9800
            };
            (map_base + 32 * (row / 8) as usize + ((tile_x as usize + (scx / 8) as usize) % 32), row)
        };
        let idx = bus.mem[map_addr];
        let data: usize = if lcdc & 0x10 != 0 {
            0x8000 + 16 * idx as usize
        } else {
            (0x9000i32 + 16 * (idx as i8 as i32)) as usize
        };
        data + 2 * (row % 8) as usize
    }

    /// Pushes the eight pixels of the `tile_x`-th tile of line `ly` of the
    /// window (`window`) or of the background into the FIFO.
    fn fetch_tile(bus: &AddrBus, ly: u8, tile_x: u8, window: bool, fifo: &mut VecDeque<u8>)
        requires
            bus@.wf(),
            window ==> ly >= bus@.mem[WY as int],
        ensures
            final(fifo)@.len() == old(fifo)@.len() + 8,
            forall|i: int| 0 <= i < old(fifo)@.len() ==> final(fifo)@[i] == old(fifo)@[i],
            forall|i: int| old(fifo)@.len() <= i < final(fifo)@.len() ==> final(fifo)@[i] < 4,
            forall|i: int|
                0 <= i < 8 ==> #[trigger] final(fifo)@[old(fifo)@.len() + i] == layer_color(
                    bus@.mem,
                    ly,
                    window,
                    tile_x as int * 8 + i,
                ),
    {
        let addr = Ppu::tile_row(bus, ly, tile_x, window);
        let low = bus.mem[addr];
        let high = bus.mem[addr + 1];
        let mut i: u8 = 0;
        while i < 8
            invariant
                i <= 8,
                fifo@.len() == old(fifo)@.len() + i,
                forall|j: int| 0 <= j < old(fifo)@.len() ==> fifo@[j] == old(fifo)@[j],
                forall|j: int| old(fifo)@.len() <= j < fifo@.len() ==> fifo@[j] < 4,
                forall|j: int|
                    0 <= j < i ==> #[trigger] fifo@[old(fifo)@.len() + j] == color_of(
                        low,
                        high,
                        j as u8,
                    ),
            decreases 8 - i,
        {
            let px = get_color(low, high, i);
            fifo.push_back(px);
            i = i + 1;
        }
        assert forall|j: int| 0 <= j < 8 implies #[trigger] fifo@[old(fifo)@.len() + j]
            == layer_color(bus@.mem, ly, window, tile_x as int * 8 + j) by {
            assert((tile_x as int * 8 + j) / 8 == tile_x as int);
            assert((tile_x as int * 8 + j) % 8 == j);
        }
    }

    /// First pixel of line `ly` that the window covers, or the screen width.
    fn window_start(bus: &AddrBus, ly: u8) -> (r: usize)
        requires
            bus@.wf(),
        ensures
            r == window_start(bus@.mem, ly),
            r <= SCREEN_WIDTH,
    {
        let wx = bus.mem[WX as usize] as usize;
        if bus.mem[LCDC as usize] & 0x20 != 0 && ly >= bus.mem[WY as usize] && wx < SCREEN_WIDTH
            + 7 {
            if wx >= 7 {
                wx - 7
            } else {
                0
            }
        } else {
            SCREEN_WIDTH
        }
    }

    /// Mode 3: line `ly` of the framebuffer drawn through the FIFO, one pixel
    /// popped whenever it holds more than eight; where the window starts the
    /// FIFO is emptied and the fetcher turns to the window's tiles.
    fn mode3(&mut self, bus: &AddrBus, ly: u8, bgp: u8)
        requires
            bus@.wf(),
            old(self).wf(),
            ly < SCREEN_HEIGHT,
            old(self).mode == MODE_DRAWING,
            old(self).fifo@.len() == 0,
        ensures
            final(self).wf(),
            final(self).mode == old(self).mode,
            final(self).ly == old(self).ly,
            final(self).sprite_buffer == old(self).sprite_buffer,
            forall|x: int|
                0 <= x < SCREEN_WIDTH ==> #[trigger] final(self).framebuffer@[ly as int
                    * SCREEN_WIDTH + x] == shade_of(bgp, line_color(bus@.mem, ly, x)),
            forall|i: int|
                0 <= i < SCREEN_WIDTH * SCREEN_HEIGHT && !(ly as int * SCREEN_WIDTH <= i < (ly as int
                    + 1) * SCREEN_WIDTH) ==> #[trigger] final(self).framebuffer@[i]
                    == old(self).framebuffer@[i],
    {
        let line = ly as usize * SCREEN_WIDTH;
        let ws = Ppu::window_start(bus, ly);
        let mut drawn: usize = 0;
        let mut fetched: usize = 0;
        let mut in_window = false;
        let ghost mut base: int = 0;
        while drawn < SCREEN_WIDTH
            invariant
                bus@.wf(),
                self.framebuffer@.len() == SCREEN_WIDTH * SCREEN_HEIGHT,
                self.mode == MODE_DRAWING,
                self.ly == old(self).ly,
                old(self).wf(),
                self.mode == old(self).mode,
                self.sprite_buffer == old(self).sprite_buffer,
                line == ly as int * SCREEN_WIDTH,
                ly < SCREEN_HEIGHT,
                ws == window_start(bus@.mem, ly),
                ws <= SCREEN_WIDTH,
                ws < SCREEN_WIDTH ==> ly >= bus@.mem[WY as int],
                drawn <= SCREEN_WIDTH,
                !in_window ==> drawn <= ws,
                in_window ==> ws <= drawn,
                base == if in_window {
                    ws as int
                } else {
                    0
                },
                drawn - base <= fetched * 8 <= drawn - base + 16,
                self.fifo@.len() == fetched * 8 - (drawn - base),
                forall|j: int|
                    drawn - base <= j < fetched * 8 ==> #[trigger] self.fifo@[j - (drawn - base)]
                        == layer_color(bus@.mem, ly, in_window, j),
                fetched <= 22,
                forall|j: int| 0 <= j < self.fifo@.len() ==> self.fifo@[j] < 4,
                forall|x: int|
                    0 <= x < drawn ==> #[trigger] self.framebuffer@[line + x] == shade_of(
                        bgp,
                        line_color(bus@.mem, ly, x),
                    ),
                forall|i: int|
                    0 <= i < SCREEN_WIDTH * SCREEN_HEIGHT && !(line <= i < line + SCREEN_WIDTH)
                        ==> #[trigger] self.framebuffer@[i] == old(self).framebuffer@[i],
            decreases SCREEN_WIDTH - drawn, if in_window {
                0int
            } else {
                1int
            }, 22 - fetched,
        {
            if !in_window && drawn == ws {
                self.fifo.clear();
                in_window = true;
                fetched = 0;
                proof {
                    base = ws as int;
                }
            } else if self.fifo.len() > 8 {
                let ghost before = self.fifo@;
                let px = match self.fifo.pop_front() {
                    Some(p) => p,
                    None => 0,
                };
                let ghost k = drawn - base;
                assert(px == before[0]);
                assert(before[k - (drawn - base)] == layer_color(bus@.mem, ly, in_window, k));
                assert(self.fifo@ == before.subrange(1, before.len() as int));
                assert(px == line_color(bus@.mem, ly, drawn as int));
                let s = shade(bgp, px);
                let ghost fb_before = self.framebuffer@;
                self.framebuffer.set(line + drawn, s);
                proof {
                    assert forall|x: int| 0 <= x < drawn + 1 implies #[trigger] self.framebuffer@[line
                        + x] == shade_of(bgp, line_color(bus@.mem, ly, x)) by {
                        if x < drawn {
                            assert(self.framebuffer@[line + x] == fb_before[line + x]);
                        }
                    }
                }
                let ghost d0 = drawn;
                drawn = drawn + 1;
                proof {
                    assert forall|j: int|
                        drawn - base <= j < fetched * 8 implies #[trigger] self.fifo@[j - (drawn
                        - base)] == layer_color(bus@.mem, ly, in_window, j) by {
                        assert(self.fifo@[j - (drawn - base)] == before[j - (d0 - base)]);
                    }
                }
            } else {
                let ghost before = self.fifo@;
                let ghost k = drawn - base;
                Ppu::fetch_tile(bus, ly, fetched as u8, in_window, &mut self.fifo);
                proof {
                    assert forall|j: int|
                        k <= j < (fetched + 1) * 8 implies #[trigger] self.fifo@[j - (drawn - base)]
                        == layer_color(bus@.mem, ly, in_window, j) by {
                        if j >= fetched * 8 {
                            let i = j - fetched * 8;
                            assert(self.fifo@[before.len() + i] == layer_color(
                                bus@.mem,
                                ly,
                                in_window,
                                fetched as int * 8 + i,
                            ));
                        }
                    }
                }
                fetched = fetched + 1;
            }
        }
    }

    /// Mode 0: the line's sprites and pixels dropped.
    fn mode0(&mut self)
        ensures
            final(self).sprite_buffer@.len() == 0,
            final(self).fifo@.len() == 0,
            final(self).framebuffer == old(self).framebuffer,
            final(self).mode == old(self).mode,
            final(self).ly == old(self).ly,
    {
        self.sprite_buffer.clear();
        self.fifo.clear();
    }

    /// Moves to the next mode of the frame and does its work: entering mode 2
    /// locks OAM and scans it, entering mode 3 locks VRAM too and draws the
    /// line with the palette in BGP, entering mode 0 releases both locks and
    /// drops the line's state, and entering line 144 requests the VBlank
    /// interrupt. LY and the mode bits of STAT follow.
    pub fn step(&mut self, bus: &mut AddrBus)
        requires
            old(self).wf(),
            old(bus)@.wf(),
        ensures
            final(self).wf(),
            final(bus)@.wf(),
            (final(self).mode, final(self).ly) == next_state(old(self).mode, old(self).ly),
            final(bus)@.mem == registers_after(old(bus)@.mem, final(self).mode, final(self).ly),
            final(bus)@.ime == old(bus)@.ime,
            final(bus)@.palettes_locked == old(bus)@.palettes_locked,
            final(bus)@.vram_locked == (final(self).mode == MODE_DRAWING),
            final(bus)@.oam_locked == (final(self).mode == MODE_OAM_SCAN || final(self).mode
                == MODE_DRAWING),
            final(self).mode == MODE_OAM_SCAN ==> final(self).sprite_buffer@ == oam_scan(
                final(bus)@.mem,
                final(self).ly,
                sprite_height(final(bus)@.mem[LCDC as int]),
                OAM_SPRITES as nat,
            ),
            final(self).mode == MODE_DRAWING ==> forall|x: int|
                0 <= x < SCREEN_WIDTH ==> #[trigger] final(self).framebuffer@[final(self).ly as int
                    * SCREEN_WIDTH + x] == shade_of(
                    final(bus)@.mem[BGP as int],
                    line_color(final(bus)@.mem, final(self).ly, x),
                ),
            final(self).mode == MODE_DRAWING ==> forall|i: int|
                0 <= i < SCREEN_WIDTH * SCREEN_HEIGHT && !(final(self).ly as int * SCREEN_WIDTH <= i
                    < (final(self).ly as int + 1) * SCREEN_WIDTH) ==> #[trigger] final(self).framebuffer@[i]
                    == old(self).framebuffer@[i],
            final(self).mode != MODE_DRAWING ==> final(self).framebuffer == old(self).framebuffer,
            final(self).mode == MODE_HBLANK ==> final(self).sprite_buffer@.len() == 0,
    {
        let (mode, ly): (u8, u8) = if self.mode == MODE_OAM_SCAN {
            (MODE_DRAWING, self.ly)
        } else if self.mode == MODE_DRAWING {
            (MODE_HBLANK, self.ly)
        } else if self.mode == MODE_HBLANK {
            if (self.ly as usize) + 1 < SCREEN_HEIGHT {
                (MODE_OAM_SCAN, self.ly + 1)
            } else {
                (MODE_VBLANK, self.ly + 1)
            }
        } else if self.ly + 1 < LINES {
            (MODE_VBLANK, self.ly + 1)
        } else {
            (MODE_OAM_SCAN, 0)
        };
        let stat = bus.mem[STAT as usize];
        bus.mem.set(LY as usize, ly);
        bus.mem.set(STAT as usize, (stat & 0xFC) | mode);
        if mode == MODE_VBLANK && ly as usize == SCREEN_HEIGHT {
            let iflag = bus.mem[IF as usize];
            bus.mem.set(IF as usize, iflag | 1);
        }
        self.mode = mode;
        self.ly = ly;
        bus.vram_locked = mode == MODE_DRAWING;
        bus.oam_locked = mode == MODE_OAM_SCAN || mode == MODE_DRAWING;
        if mode == MODE_OAM_SCAN {
            self.mode2(bus, ly);
        } else if mode == MODE_DRAWING {
            let bgp = bus.mem[BGP as usize];
            self.mode3(bus, ly, bgp);
        } else if mode == MODE_HBLANK {
            self.mode0();
        }
    }
}

} // verus!
