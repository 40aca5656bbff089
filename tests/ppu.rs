use rgbe::bus::AddrBus;
use rgbe::ppu::{get_color, Ppu, MODE_DRAWING, MODE_HBLANK, MODE_OAM_SCAN, MODE_VBLANK};

fn bus() -> AddrBus {
    AddrBus::new(vec![0u8; 0x10000])
}

#[test]
fn color_of_tile_row() {
    // low 0b1010_0000, high 0b1100_0000: pixels 3, 2, 1, 0, ...
    assert_eq!(get_color(0xA0, 0xC0, 0), 3);
    assert_eq!(get_color(0xA0, 0xC0, 1), 2);
    assert_eq!(get_color(0xA0, 0xC0, 2), 1);
    assert_eq!(get_color(0xA0, 0xC0, 3), 0);
    assert_eq!(get_color(0x01, 0x01, 7), 3);
}

#[test]
fn first_step_starts_line_zero_with_oam_locked() {
    let mut b = bus();
    let mut p = Ppu::new();
    p.step(&mut b);
    assert_eq!(p.mode, MODE_OAM_SCAN);
    assert_eq!(p.ly, 0);
    assert!(b.oam_locked);
    assert!(!b.vram_locked);
    assert_eq!(b.mem[0xFF44], 0);
    assert_eq!(b.mem[0xFF41] & 3, 2);
    assert_eq!(b.get(0xFE00), 0xFF);
}

#[test]
fn oam_scan_keeps_at_most_ten() {
    let mut b = bus();
    for k in 0..12 {
        b.mem[0xFE00 + 4 * k] = 16;
        b.mem[0xFE00 + 4 * k + 1] = k as u8;
    }
    b.mem[0xFE00 + 4 * 12] = 30;
    let mut p = Ppu::new();
    p.step(&mut b);
    assert_eq!(p.sprite_buffer.len(), 10);
    assert_eq!(p.sprite_buffer[9].x_pos, 9);
}

#[test]
fn oam_scan_tall_sprites() {
    let mut b = bus();
    b.mem[0xFF40] = 0x04;
    b.mem[0xFE00] = 8;
    b.mem[0xFE04] = 0;
    let mut p = Ppu::new();
    p.step(&mut b);
    assert_eq!(p.sprite_buffer.len(), 1);
    assert_eq!(p.sprite_buffer[0].y_pos, 8);
}

#[test]
fn drawing_locks_vram_and_fills_the_line() {
    let mut b = bus();
    b.mem[0xFF40] = 0x10;
    b.mem[0xFF47] = 0xE4;
    b.mem[0x9800] = 1;
    b.mem[0x8010] = 0xFF;
    b.mem[0x8011] = 0x00;
    let mut p = Ppu::new();
    p.step(&mut b);
    p.step(&mut b);
    assert_eq!(p.mode, MODE_DRAWING);
    assert!(b.vram_locked);
    assert_eq!(b.get(0x8010), 0xFF);
    b.set(0x8010, 0x00);
    assert_eq!(b.mem[0x8010], 0xFF);
    for x in 0..8 {
        assert_eq!(p.framebuffer[x], 1);
    }
    for x in 8..160 {
        assert_eq!(p.framebuffer[x], 0);
    }
    p.step(&mut b);
    assert_eq!(p.mode, MODE_HBLANK);
    assert!(!b.vram_locked && !b.oam_locked);
    assert!(p.sprite_buffer.is_empty());
}

#[test]
fn signed_tile_addressing() {
    let mut b = bus();
    b.mem[0xFF40] = 0x00;
    b.mem[0xFF47] = 0xE4;
    b.mem[0x9800] = 0xFF;
    b.mem[0x8FF0] = 0x00;
    b.mem[0x8FF1] = 0xFF;
    let mut p = Ppu::new();
    p.step(&mut b);
    p.step(&mut b);
    assert_eq!(p.framebuffer[0], 2);
    assert_eq!(p.framebuffer[7], 2);
}

#[test]
fn second_row_of_tile_on_line_one() {
    let mut b = bus();
    b.mem[0xFF40] = 0x10;
    b.mem[0xFF47] = 0xE4;
    b.mem[0x8002] = 0xFF;
    b.mem[0x8003] = 0xFF;
    let mut p = Ppu::new();
    for _ in 0..5 {
        p.step(&mut b);
    }
    assert_eq!(p.mode, MODE_DRAWING);
    assert_eq!(p.ly, 1);
    assert_eq!(p.framebuffer[160], 3);
    assert_eq!(p.framebuffer[0], 0);
}

#[test]
fn frame_reaches_vblank_and_wraps() {
    let mut b = bus();
    let mut p = Ppu::new();
    let mut steps = 0;
    loop {
        p.step(&mut b);
        steps += 1;
        if p.mode == MODE_VBLANK {
            break;
        }
    }
    assert_eq!(steps, 1 + 144 * 3);
    assert_eq!(p.ly, 144);
    assert_eq!(b.mem[0xFF44], 144);
    assert_eq!(b.mem[0xFF0F] & 1, 1);
    for _ in 0..9 {
        p.step(&mut b);
    }
    assert_eq!(p.ly, 153);
    p.step(&mut b);
    assert_eq!(p.mode, MODE_OAM_SCAN);
    assert_eq!(p.ly, 0);
}

#[test]
fn window_covers_the_right_of_the_line() {
    let mut b = bus();
    b.mem[0xFF40] = 0x10 | 0x20 | 0x40;
    b.mem[0xFF47] = 0xE4;
    b.mem[0xFF4A] = 0;
    b.mem[0xFF4B] = 7 + 83;
    b.mem[0x9C00] = 2;
    b.mem[0x8020] = 0xFF;
    b.mem[0x8021] = 0xFF;
    let mut p = Ppu::new();
    p.step(&mut b);
    p.step(&mut b);
    for x in 0..83 {
        assert_eq!(p.framebuffer[x], 0);
    }
    for x in 83..91 {
        assert_eq!(p.framebuffer[x], 3);
    }
    for x in 91..160 {
        assert_eq!(p.framebuffer[x], 0);
    }
}

#[test]
fn window_below_wy_only() {
    let mut b = bus();
    b.mem[0xFF40] = 0x10 | 0x20;
    b.mem[0xFF47] = 0xE4;
    b.mem[0xFF4A] = 1;
    b.mem[0xFF4B] = 7;
    b.mem[0x9800] = 2;
    b.mem[0x8020] = 0xFF;
    b.mem[0x8021] = 0x00;
    let mut p = Ppu::new();
    p.step(&mut b);
    p.step(&mut b);
    // Line 0 is above the window: background tile 2, row 0.
    assert_eq!(p.framebuffer[0], 1);
    assert_eq!(p.framebuffer[8], 0);
    for _ in 0..3 {
        p.step(&mut b);
    }
    // Line 1 shows window row 0 from pixel 0, starting with tile 2.
    assert_eq!(p.ly, 1);
    assert_eq!(p.framebuffer[160], 1);
}
