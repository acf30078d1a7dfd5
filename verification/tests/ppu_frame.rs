//! Frame-level behavior: pacing, the VBlank interrupt, rendering.

use rboy::cpu::CPU;
use rboy::memory::Memory;
use rboy::ppu::PPU;

fn lcd_on_bus() -> Memory {
    let mut mem = Memory::new(vec![0u8; 256], false);
    mem.set(0xff50, 1);
    mem.set(0xff40, 0x91); // LCD on, unsigned tile data, background on
    mem
}

#[test]
fn first_frame_and_steady_pacing() {
    // From LCD enable, the frame signal first fires when line 143
    // completes (144 visible lines of 456 T-cycles), and every
    // 70224 T-cycles — one full 154-line frame — after that.
    let mut mem = lcd_on_bus();
    let mut ppu = PPU::new();
    let mut t: u64 = 0;
    let mut first: u64 = 0;
    let mut second: u64 = 0;
    while second == 0 {
        let frame = ppu.tick(&mut mem, 4);
        t += 4;
        if frame {
            if first == 0 {
                first = t;
            } else {
                second = t;
            }
        }
        assert!(t < 200000);
    }
    assert_eq!(first, 144 * 456);
    assert_eq!(second - first, 70224);
}

#[test]
fn vblank_interrupt_once_per_frame() {
    // IF bit 0 is raised exactly once per complete frame.
    let mut mem = lcd_on_bus();
    let mut ppu = PPU::new();
    // Run into the first frame, then clear IF and observe one full frame.
    while !ppu.tick(&mut mem, 4) {}
    mem.set(0xff0f, 0x00);
    let mut raises: u32 = 0;
    let mut t: u64 = 0;
    while t < 70224 {
        let before = mem.get(0xff0f) & 0x01;
        ppu.tick(&mut mem, 4);
        t += 4;
        let after = mem.get(0xff0f) & 0x01;
        if before == 0 && after == 1 {
            raises += 1;
            mem.set(0xff0f, 0x00);
        }
    }
    assert_eq!(raises, 1);
}

#[test]
fn cpu_cycles_sum_to_one_frame() {
    // The T-cycles the CPU returns over one frame sum to 70224 when
    // the guest runs straight-line code.
    let mut mem = lcd_on_bus();
    let mut cpu = CPU::new();
    let mut ppu = PPU::new();
    // A cartridge holding one unconditional relative jump onto itself:
    // every step costs the fixed 12 T-cycles of a taken JR.
    let mut rom = vec![0u8; 0x8000];
    rom[0] = 0x18;
    rom[1] = 0xfe;
    mem.load_rom(rom).unwrap();
    // Reach the first frame boundary.
    loop {
        let c = cpu.tick(&mut mem).unwrap();
        if ppu.tick(&mut mem, c) {
            break;
        }
    }
    // Sum exactly one more frame.
    let mut sum: u64 = 0;
    loop {
        let c = cpu.tick(&mut mem).unwrap();
        sum += c as u64;
        if ppu.tick(&mut mem, c) {
            break;
        }
    }
    assert_eq!(sum, 70224);
}

#[test]
fn ly_counts_scanlines_and_wraps() {
    let mut mem = lcd_on_bus();
    let mut ppu = PPU::new();
    assert_eq!(mem.get(0xff44), 0);
    // One scanline is 456 T-cycles.
    for _ in 0..6 {
        ppu.tick(&mut mem, 76);
    }
    assert_eq!(mem.get(0xff44), 1);
    // A whole frame later the counter is back on the same line.
    for _ in 0..(70224 / 4) {
        ppu.tick(&mut mem, 4);
    }
    assert_eq!(mem.get(0xff44), 1);
}

#[test]
fn lcd_disabled_freezes_with_ly_zero() {
    let mut mem = lcd_on_bus();
    let mut ppu = PPU::new();
    for _ in 0..1000 {
        ppu.tick(&mut mem, 80);
    }
    assert_ne!(mem.get(0xff44), 0);
    mem.set(0xff40, 0x00); // LCD off
    assert!(!ppu.tick(&mut mem, 80));
    assert_eq!(mem.get(0xff44), 0);
    assert_eq!(mem.get(0xff41) & 0x03, 0); // mode reads HBlank
    // No interrupt while disabled.
    mem.set(0xff0f, 0);
    for _ in 0..(70224 / 80 + 1) {
        assert!(!ppu.tick(&mut mem, 80));
    }
    assert_eq!(mem.get(0xff0f) & 0x01, 0);
}

#[test]
fn bg_renders_uniform_shade_from_palette_entry_zero() {
    // With the map all pointing at an all-zero tile, every frame pixel
    // is palette entry 0 as configured in BGP.
    let mut mem = lcd_on_bus();
    let mut ppu = PPU::new();
    mem.set(0xff47, 0b00000001); // entry 0 -> color 1 -> shade 170
    while !ppu.tick(&mut mem, 4) {}
    let frame = ppu.frame_buffer();
    assert_eq!(frame.len(), 160 * 144 * 4);
    for px in 0..(160 * 144) {
        assert_eq!(frame[px * 4], 170);
        assert_eq!(frame[px * 4 + 1], 170);
        assert_eq!(frame[px * 4 + 2], 170);
        assert_eq!(frame[px * 4 + 3], 255);
    }
}

#[test]
fn bg_tile_pattern_lands_in_frame() {
    // Tile 1: the top row's low plane is 0xff, so its eight pixels are
    // color 1; map cell (0,0) selects it; with SCX=SCY=0 the top-left
    // eight frame pixels show palette entry 1, the rest entry 0.
    let mut mem = lcd_on_bus();
    let mut ppu = PPU::new();
    mem.set(0x8010, 0xff); // tile 1, row 0, low plane
    mem.set(0x9800, 0x01); // map cell (0,0) -> tile 1
    mem.set(0xff47, 0b11100100); // identity palette: 255,170,85,0
    while !ppu.tick(&mut mem, 4) {}
    let frame = ppu.frame_buffer();
    for x in 0..8 {
        assert_eq!(frame[x * 4], 170);
    }
    assert_eq!(frame[8 * 4], 255);
    // Row 1 of the tile is all zero again.
    assert_eq!(frame[(160 + 3) * 4], 255);
}

#[test]
fn stat_coincidence_interrupt_fires_on_lyc() {
    let mut mem = lcd_on_bus();
    let mut ppu = PPU::new();
    mem.set(0xff45, 2); // LYC = 2
    mem.set(0xff41, 0x40); // enable the compare source
    mem.set(0xff0f, 0);
    // Run two scanlines: LY reaches 2.
    for _ in 0..(2 * 456 / 4) {
        ppu.tick(&mut mem, 4);
    }
    assert_eq!(mem.get(0xff44), 2);
    assert_eq!(mem.get(0xff41) & 0x04, 0x04);
    assert_eq!(mem.get(0xff0f) & 0x02, 0x02);
}

#[test]
fn bg_disabled_renders_white() {
    let mut mem = Memory::new(vec![0u8; 256], false);
    mem.set(0xff50, 1);
    mem.set(0xff40, 0x90); // LCD on, background layer off
    mem.set(0xff47, 0b11111111);
    let mut ppu = PPU::new();
    while !ppu.tick(&mut mem, 4) {}
    let frame = ppu.frame_buffer();
    assert_eq!(frame[0], 255);
    assert_eq!(frame[(100 * 160 + 100) * 4], 255);
}

#[test]
fn window_overrides_background() {
    // Window enabled from (WX-7, WY) = (0, 0), its map at 0x9c00 all
    // tile 1 whose top row is color 1; the background map at 0x9800
    // stays tile 0. The window wins everywhere it reaches.
    let mut mem = Memory::new(vec![0u8; 256], false);
    mem.set(0xff50, 1);
    mem.set(0xff40, 0xf1); // LCD, window map hi, window on, unsigned data, bg on
    mem.set(0xff47, 0b11100100);
    mem.set(0xff4a, 0); // WY
    mem.set(0xff4b, 7); // WX
    mem.set(0x8010, 0xff); // tile 1, row 0, low plane
    mem.set(0x9c00, 0x01); // window map cell (0,0)
    let mut ppu = PPU::new();
    while !ppu.tick(&mut mem, 4) {}
    let frame = ppu.frame_buffer();
    // Top-left pixel comes from the window's tile 1, color 1.
    assert_eq!(frame[0], 170);
    // Row 1 of tile 1 is color 0.
    assert_eq!(frame[160 * 4], 255);
}

#[test]
fn window_below_wy_shows_background() {
    let mut mem = Memory::new(vec![0u8; 256], false);
    mem.set(0xff50, 1);
    mem.set(0xff40, 0xf1);
    mem.set(0xff47, 0b11100100);
    mem.set(0xff4a, 100); // WY: window only from line 100 down
    mem.set(0xff4b, 7);
    mem.set(0x8010, 0xff);
    mem.set(0x9c00, 0x01); // window map: tile 1
    let mut ppu = PPU::new();
    while !ppu.tick(&mut mem, 4) {}
    let frame = ppu.frame_buffer();
    // Above WY the background (tile 0, color 0) shows.
    assert_eq!(frame[(50 * 160) * 4], 255);
    // At WY the window's first tile row (color 1) shows.
    assert_eq!(frame[(100 * 160) * 4], 170);
}

fn sprite_bus() -> Memory {
    // LCD on, sprites on, unsigned tile data, background on; identity
    // palettes for the background and both object palettes.
    let mut mem = Memory::new(vec![0u8; 256], false);
    mem.set(0xff50, 1);
    mem.set(0xff40, 0x93);
    mem.set(0xff47, 0b11100100);
    mem.set(0xff48, 0b11100100);
    mem.set(0xff49, 0b10010011);
    mem
}

/// One OAM entry: Y, X, tile index, flags.
fn put_sprite(mem: &mut Memory, i: u16, y: u8, x: u8, tile: u8, flags: u8) {
    mem.set(0xfe00 + i * 4, y);
    mem.set(0xfe00 + i * 4 + 1, x);
    mem.set(0xfe00 + i * 4 + 2, tile);
    mem.set(0xfe00 + i * 4 + 3, flags);
}

#[test]
fn sprite_renders_over_background() {
    let mut mem = sprite_bus();
    let mut ppu = PPU::new();
    mem.set(0x8020, 0xff); // tile 2, row 0: color 1
    put_sprite(&mut mem, 0, 16, 8, 2, 0); // top-left corner of the frame
    while !ppu.tick(&mut mem, 4) {}
    let frame = ppu.frame_buffer();
    for x in 0..8 {
        assert_eq!(frame[x * 4], 170); // OBP0 color 1
    }
    assert_eq!(frame[8 * 4], 255); // past the sprite: background
    assert_eq!(frame[160 * 4], 255); // row 1 of the tile: transparent
}

#[test]
fn sprite_color_zero_is_transparent() {
    let mut mem = sprite_bus();
    let mut ppu = PPU::new();
    // Tile 2 stays all zero: every sprite pixel is transparent.
    put_sprite(&mut mem, 0, 16, 8, 2, 0);
    while !ppu.tick(&mut mem, 4) {}
    assert_eq!(ppu.frame_buffer()[0], 255);
}

#[test]
fn sprite_behind_background_colors() {
    // Priority flag set: the sprite shows only where the background
    // color id is 0.
    let mut mem = sprite_bus();
    let mut ppu = PPU::new();
    mem.set(0x8020, 0xff); // sprite tile 2 row 0: color 1
    // Background tile 1: row 0 columns 0..3 color 1 (low plane 0xf0).
    mem.set(0x8010, 0xf0);
    mem.set(0x9800, 0x01);
    put_sprite(&mut mem, 0, 16, 8, 2, 0x80);
    while !ppu.tick(&mut mem, 4) {}
    let frame = ppu.frame_buffer();
    // Background color 1 wins on the left half.
    assert_eq!(frame[0], 170);
    // Background color 0 lets the sprite through on the right half.
    assert_eq!(frame[4 * 4], 170); // both layers are color 1 here; use palettes to tell
    // Distinguish: give the object palette a different shade for 1.
    mem.set(0xff48, 0b11100000 | 0b1000); // entry 1 -> color 2 -> 85
    while !ppu.tick(&mut mem, 4) {}
    let frame = ppu.frame_buffer();
    assert_eq!(frame[0], 170); // background wins: BGP shade
    assert_eq!(frame[4 * 4], 85); // sprite wins: OBP0 shade
}

#[test]
fn sprite_x_flip_mirrors_columns() {
    let mut mem = sprite_bus();
    let mut ppu = PPU::new();
    mem.set(0x8020, 0x0f); // tile 2 row 0: right half color 1
    put_sprite(&mut mem, 0, 16, 8, 2, 0x20); // X-flip
    while !ppu.tick(&mut mem, 4) {}
    let frame = ppu.frame_buffer();
    assert_eq!(frame[0], 170); // mirrored to the left half
    assert_eq!(frame[4 * 4], 255);
}

#[test]
fn only_ten_sprites_per_line() {
    let mut mem = sprite_bus();
    let mut ppu = PPU::new();
    mem.set(0x8020, 0xff); // tile 2 row 0: color 1
    // Ten earlier sprites cover the line off the right edge.
    for i in 0..10 {
        put_sprite(&mut mem, i, 16, 200, 2, 0);
    }
    // The eleventh would land at the left corner, but the line is full.
    put_sprite(&mut mem, 10, 16, 8, 2, 0);
    while !ppu.tick(&mut mem, 4) {}
    assert_eq!(ppu.frame_buffer()[0], 255);
    // On the next line down none of them applies either way.
    // Clear one of the ten: now the eleventh is drawn.
    put_sprite(&mut mem, 3, 0, 0, 0, 0);
    while !ppu.tick(&mut mem, 4) {}
    assert_eq!(ppu.frame_buffer()[0], 170);
}

#[test]
fn lowest_x_wins_overlapping_sprites() {
    let mut mem = sprite_bus();
    let mut ppu = PPU::new();
    mem.set(0x8020, 0xff); // tile 2 row 0: color 1
    mem.set(0xff49, 0b00001000); // OBP1: color 1 -> shade 85
    put_sprite(&mut mem, 0, 16, 12, 2, 0); // OBP0: color 1 -> shade 170
    put_sprite(&mut mem, 1, 16, 8, 2, 0x10); // OBP1, lower X
    while !ppu.tick(&mut mem, 4) {}
    let frame = ppu.frame_buffer();
    // In the overlap the lower X (entry 1) wins, drawn with OBP1.
    assert_eq!(frame[4 * 4], 85);
    // Past entry 1's right edge only entry 0 covers the pixel.
    assert_eq!(frame[8 * 4], 170);
}

#[test]
fn tall_sprites_use_even_tile_pairs() {
    // In 8x16 mode the tile index's low bit is ignored and the lower
    // half comes from the next tile.
    let mut mem = sprite_bus();
    mem.set(0xff40, 0x97); // LCD, unsigned data, 8x16 objects, objects, background
    let mut ppu = PPU::new();
    mem.set(0x8020, 0xff); // tile 2, row 0: color 1
    mem.set(0x8030, 0x0f); // tile 3, row 0: right half color 1
    put_sprite(&mut mem, 0, 16, 8, 3, 0); // odd index: still tile 2 on top
    while !ppu.tick(&mut mem, 4) {}
    let frame = ppu.frame_buffer();
    assert_eq!(frame[0], 170); // top row from tile 2
    // Row 8 is the first row of the lower half, tile 3.
    assert_eq!(frame[(8 * 160) * 4], 255);
    assert_eq!(frame[(8 * 160 + 6) * 4], 170);
}

#[test]
fn sprite_y_flip_mirrors_rows() {
    let mut mem = sprite_bus();
    let mut ppu = PPU::new();
    mem.set(0x8020, 0xff); // tile 2, row 0: color 1; rows 1..7 empty
    put_sprite(&mut mem, 0, 16, 8, 2, 0x40); // Y-flip
    while !ppu.tick(&mut mem, 4) {}
    let frame = ppu.frame_buffer();
    assert_eq!(frame[0], 255); // top row now empty
    assert_eq!(frame[(7 * 160) * 4], 170); // bottom row shows the stripe
}

#[test]
fn sprites_disabled_by_lcdc_bit() {
    let mut mem = sprite_bus();
    mem.set(0xff40, 0x91); // objects off
    let mut ppu = PPU::new();
    mem.set(0x8020, 0xff);
    put_sprite(&mut mem, 0, 16, 8, 2, 0);
    while !ppu.tick(&mut mem, 4) {}
    assert_eq!(ppu.frame_buffer()[0], 255);
}
