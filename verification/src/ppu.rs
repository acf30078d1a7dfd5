//! The pixel-processing unit.
//!
//! The PPU advances an LCD state machine by the T-cycles each CPU step
//! consumed. One scanline lasts 456 T-cycles: 80 of OAM scan, a drawing
//! window, and horizontal blank up to 456. After the last visible line
//! it enters vertical blank for ten lines, raises the VBlank interrupt
//! once per frame, and renders the completed frame: the 160x144
//! viewport of the scrolled background map, the window where it
//! reaches, and up to ten sprites per line on top, in four gray
//! shades.
//!
//! While it scans OAM the CPU cannot read OAM; while it draws, neither
//! VRAM nor OAM: the PPU publishes the two gates on the bus and gated
//! reads return 0xff.

use crate::alu::{bit_is_set, pow2, spec_bit_is_set, spec_pow2, spec_set8};
use crate::constants::{
    gray_shade, spec_gray_shade, BG_PALETTE_DATA, DRAW_AND_HBLANK_CYCLE_IN_4MHZ, INTERRUPT_FLAG,
    LCD_CONTROL_RW, LY_COMPARE_RW, MAX_DRAWING_CYCLE_IN_4MHZ, OAM_CYCLE_IN_4MHZ, SCROLL_X_RW,
    OAM_RAM_START, OBJ_PALETTE_0, OBJ_PALETTE_1, SCROLL_Y_RW, STATUS_ADDR_RW,
    VBLANK_CYCLE_IN_4MHZ, VBLANK_END_LY, VRAM_START, WINDOW_X_POSITION_MINUS_7_RW,
    WINDOW_Y_POSITION_RW, Y_COORDINATE_R,
};
use crate::memory::{bus_wf, spec_read, BusView, Memory};
use vstd::prelude::*;

verus! {

/// The four modes of the LCD state machine.
#[derive(Clone, Copy, PartialEq, Eq, Structural, Debug)]
pub enum PpuMode {
    OamScan,
    Drawing,
    HBlank,
    VBlank,
}

/// The STAT mode bits of each mode.
pub open spec fn spec_mode_bits(m: PpuMode) -> u8 {
    match m {
        PpuMode::HBlank => 0,
        PpuMode::VBlank => 1,
        PpuMode::OamScan => 2,
        PpuMode::Drawing => 3,
    }
}

/// The 2-bit color id of pixel column `x` of a tile row encoded by two
/// bytes: the even byte carries the low plane, the odd byte the high
/// plane, bit 7 the leftmost pixel.
pub open spec fn spec_row_color_id(even: u8, odd: u8, x: int) -> u8 {
    ((if spec_bit_is_set(even, (7 - x) as u8) {
        1int
    } else {
        0
    }) + (if spec_bit_is_set(odd, (7 - x) as u8) {
        2int
    } else {
        0
    })) as u8
}

/// Executable twin of `spec_row_color_id`.
pub fn row_color_id(even: u8, odd: u8, x: u8) -> (r: u8)
    requires
        x < 8,
    ensures
        r == spec_row_color_id(even, odd, x as int),
        r < 4,
{
    (if bit_is_set(even, 7 - x) {
        1u8
    } else {
        0
    }) + (if bit_is_set(odd, 7 - x) {
        2u8
    } else {
        0
    })
}

/// A color id mapped through a packed palette byte, two bits per id,
/// to one of the four gray shades.
pub open spec fn spec_palette_shade(palette: u8, id: u8) -> u8 {
    spec_gray_shade((palette / spec_pow2((2 * id) as u8)) % 4)
}

/// Executable twin of `spec_palette_shade`.
pub fn palette_shade(palette: u8, id: u8) -> (r: u8)
    requires
        id < 4,
    ensures
        r == spec_palette_shade(palette, id),
{
    gray_shade((palette / pow2(2 * id)) % 4)
}

/// The color id of background-map pixel (x, y): the 32x32 tile-index
/// map selects a 16-byte tile, taken from 0x8000 with an unsigned
/// index or around 0x9000 with a signed one.
pub open spec fn spec_bg_color_id(
    b: BusView,
    map_hi: bool,
    unsigned_data: bool,
    x: int,
    y: int,
) -> u8 {
    let map_base: int = if map_hi {
        0x9c00
    } else {
        0x9800
    };
    let idx = b.data[map_base + (y / 8) * 32 + x / 8];
    let tile_addr: int = if unsigned_data {
        0x8000 + idx * 16
    } else if idx < 128 {
        0x9000 + idx * 16
    } else {
        0x8800 + (idx - 128) * 16
    };
    let even = b.data[tile_addr + (y % 8) * 2];
    let odd = b.data[tile_addr + (y % 8) * 2 + 1];
    spec_row_color_id(even, odd, x % 8)
}

/// The gray shade of background-map pixel (x, y), through the
/// background palette register.
pub open spec fn spec_bg_shade(
    b: BusView,
    map_hi: bool,
    unsigned_data: bool,
    x: int,
    y: int,
) -> u8 {
    spec_palette_shade(
        b.data[BG_PALETTE_DATA as int],
        spec_bg_color_id(b, map_hi, unsigned_data, x, y),
    )
}

/// The background or window color id under frame pixel (fx, fy), from
/// the LCD control byte on the bus: zero when the background layer is
/// disabled; otherwise the window map from (WX-7, WY) onward when the
/// window is enabled and reaches the pixel, else the background map
/// sampled through the 160x144 viewport at (SCX, SCY), modulo 256.
pub open spec fn spec_bg_layer_id(b: BusView, fx: int, fy: int) -> u8 {
    let lcdc = b.data[LCD_CONTROL_RW as int];
    let scx = b.data[SCROLL_X_RW as int];
    let scy = b.data[SCROLL_Y_RW as int];
    let wy = b.data[WINDOW_Y_POSITION_RW as int];
    let wx = b.data[WINDOW_X_POSITION_MINUS_7_RW as int];
    let unsigned_data = spec_bit_is_set(lcdc, 4);
    if !spec_bit_is_set(lcdc, 0) {
        0
    } else if spec_bit_is_set(lcdc, 5) && fy >= wy && fx + 7 >= wx {
        spec_bg_color_id(b, spec_bit_is_set(lcdc, 6), unsigned_data, fx + 7 - wx, fy - wy)
    } else {
        spec_bg_color_id(
            b,
            spec_bit_is_set(lcdc, 3),
            unsigned_data,
            (fx + scx) % 256,
            (fy + scy) % 256,
        )
    }
}

/// The gray shade of the background or window layer alone at frame
/// pixel (fx, fy): white when the layer is disabled, else its color id
/// through the background palette.
pub open spec fn spec_bg_layer_shade(b: BusView, fx: int, fy: int) -> u8 {
    if !spec_bit_is_set(b.data[LCD_CONTROL_RW as int], 0) {
        255
    } else {
        spec_palette_shade(b.data[BG_PALETTE_DATA as int], spec_bg_layer_id(b, fx, fy))
    }
}

/// Byte `k` of OAM entry `i`: each of the 40 sprite descriptors holds
/// Y, X, the tile index and the attribute flags.
pub open spec fn spec_oam_byte(b: BusView, i: int, k: int) -> u8 {
    b.data[OAM_RAM_START + i * 4 + k]
}

/// Whether OAM entry `i` covers scanline `fy`: the stored Y is the top
/// of the sprite plus 16, and the sprite is 8 or 16 pixels tall.
pub open spec fn spec_sprite_covers_line(b: BusView, i: int, fy: int, tall: bool) -> bool {
    let y = spec_oam_byte(b, i, 0);
    let h: int = if tall {
        16
    } else {
        8
    };
    y <= fy + 16 < y + h
}

/// How many of the OAM entries before `n` cover scanline `fy`. The
/// hardware takes only the first ten of a line, in OAM order.
pub open spec fn spec_line_sprite_count(b: BusView, fy: int, tall: bool, n: int) -> int
    decreases n,
{
    if n <= 0 {
        0
    } else {
        spec_line_sprite_count(b, fy, tall, n - 1) + (if spec_sprite_covers_line(
            b,
            n - 1,
            fy,
            tall,
        ) {
            1int
        } else {
            0
        })
    }
}

/// The color id of OAM entry `i` at frame pixel (fx, fy), with the X
/// and Y flips and, for 8x16 sprites, the forced-even tile index.
pub open spec fn spec_sprite_color(b: BusView, i: int, fx: int, fy: int, tall: bool) -> u8 {
    let y = spec_oam_byte(b, i, 0);
    let x = spec_oam_byte(b, i, 1);
    let tile = spec_oam_byte(b, i, 2);
    let flags = spec_oam_byte(b, i, 3);
    let h: int = if tall {
        16
    } else {
        8
    };
    let row0 = fy + 16 - y;
    let row = if spec_bit_is_set(flags, 6) {
        h - 1 - row0
    } else {
        row0
    };
    let col0 = fx + 8 - x;
    let col = if spec_bit_is_set(flags, 5) {
        7 - col0
    } else {
        col0
    };
    let t: int = if tall {
        (tile / 2) * 2
    } else {
        tile as int
    };
    let addr = VRAM_START + t * 16 + row * 2;
    spec_row_color_id(b.data[addr], b.data[addr + 1], col)
}

/// Whether OAM entry `i` puts an opaque pixel on (fx, fy): it must be
/// among the first ten sprites of the line, cover the column, and its
/// color id there must not be the transparent zero.
pub open spec fn spec_sprite_hit(b: BusView, i: int, fx: int, fy: int, tall: bool) -> bool {
    &&& spec_sprite_covers_line(b, i, fy, tall)
    &&& spec_line_sprite_count(b, fy, tall, i) < 10
    &&& spec_oam_byte(b, i, 1) <= fx + 8 < spec_oam_byte(b, i, 1) + 8
    &&& spec_sprite_color(b, i, fx, fy, tall) != 0
}

/// The winning sprite for pixel (fx, fy) among the entries before `n`,
/// or 40 when none hits: the lowest stored X wins, ties to the lowest
/// OAM index.
pub open spec fn spec_best_sprite(b: BusView, fx: int, fy: int, tall: bool, n: int) -> int
    decreases n,
{
    if n <= 0 {
        40
    } else {
        let prev = spec_best_sprite(b, fx, fy, tall, n - 1);
        if spec_sprite_hit(b, n - 1, fx, fy, tall) && (prev == 40 || spec_oam_byte(b, n - 1, 1)
            < spec_oam_byte(b, prev, 1)) {
            n - 1
        } else {
            prev
        }
    }
}

/// The gray shade of frame pixel (fx, fy): the winning sprite, through
/// its object palette, when sprites are enabled and the winner either
/// has priority over the background or lies on background color 0;
/// else the background or window layer.
pub open spec fn spec_frame_shade(b: BusView, fx: int, fy: int) -> u8 {
    let lcdc = b.data[LCD_CONTROL_RW as int];
    let tall = spec_bit_is_set(lcdc, 2);
    let w = spec_best_sprite(b, fx, fy, tall, 40);
    if spec_bit_is_set(lcdc, 1) && w < 40 && (!spec_bit_is_set(spec_oam_byte(b, w, 3), 7)
        || spec_bg_layer_id(b, fx, fy) == 0) {
        let obp = if spec_bit_is_set(spec_oam_byte(b, w, 3), 4) {
            b.data[OBJ_PALETTE_1 as int]
        } else {
            b.data[OBJ_PALETTE_0 as int]
        };
        spec_palette_shade(obp, spec_sprite_color(b, w, fx, fy, tall))
    } else {
        spec_bg_layer_shade(b, fx, fy)
    }
}

/// The gray shade of pixel (px, py) of the tile-data viewer: the first
/// 280 tiles of VRAM laid out 20 to a row.
pub open spec fn spec_tiles_shade(b: BusView, px: int, py: int) -> u8 {
    let tile_index = (py / 8) * 20 + px / 8;
    let tile_addr = VRAM_START + tile_index * 16;
    let even = b.data[tile_addr + (py % 8) * 2];
    let odd = b.data[tile_addr + (py % 8) * 2 + 1];
    spec_palette_shade(b.data[BG_PALETTE_DATA as int], spec_row_color_id(even, odd, px % 8))
}

/// The shade of entry `i` of a decoded 8x8 tile, row-major: the tile's
/// 16 bytes hold two planes per row.
pub open spec fn spec_tile_shade(data: Seq<u8>, palette: u8, i: int) -> u8 {
    spec_palette_shade(
        palette,
        spec_row_color_id(data[(i / 8) * 2], data[(i / 8) * 2 + 1], i % 8),
    )
}

/// Byte `i` of the 160x144 RGBA frame: pixel i/4 in row-major order,
/// gray in the three color channels and an opaque alpha.
pub open spec fn spec_frame_rgba(b: BusView, i: int) -> u8 {
    if i % 4 == 3 {
        255
    } else {
        spec_frame_shade(b, (i / 4) % 160, (i / 4) / 160)
    }
}

/// The flat-index identities of a 256-wide RGBA surface: the first
/// byte of pixel (x, y) sits at (y * 256 + x) * 4.
pub open spec fn spec_pixel_index_facts(idx: int, x: int, y: int) -> bool {
    &&& idx == (y * 256 + x) * 4
    &&& idx % 4 == 0
    &&& (idx / 4) % 256 == x
    &&& (idx / 4) / 256 == y
}

/// Byte `i` of the rendered 256x256 background debug surface: the
/// whole map, gray in the color channels, opaque alpha.
pub open spec fn spec_bg_rgba(b: BusView, i: int) -> u8 {
    if i % 4 == 3 {
        255
    } else {
        spec_bg_shade(
            b,
            spec_bit_is_set(b.data[LCD_CONTROL_RW as int], 3),
            spec_bit_is_set(b.data[LCD_CONTROL_RW as int], 4),
            (i / 4) % 256,
            (i / 4) / 256,
        )
    }
}

/// Byte `i` of the rendered tile-data viewer.
pub open spec fn spec_tiles_rgba(b: BusView, i: int) -> u8 {
    if i % 4 == 3 {
        255
    } else {
        spec_tiles_shade(b, (i / 4) % 160, (i / 4) / 160)
    }
}

/// Whether map pixel (x, y) lies on the one-pixel border of the
/// 160x144 viewport anchored at (scx, scy), wrapping modulo 256.
pub open spec fn spec_on_viewport_border(scx: u8, scy: u8, x: int, y: int) -> bool {
    let dx = (x - scx) % 256;
    let dy = (y - scy) % 256;
    ||| (dx < 160 && (dy == 0 || dy == 143))
    ||| (dy < 144 && (dx == 0 || dx == 159))
}

/// Byte `i` of a background debug surface after the viewport border
/// has been marked in red over `orig`: border pixels become
/// (255, 0, 0); every other pixel and every alpha byte is kept.
pub open spec fn spec_viewport_marked(orig: Seq<u8>, scx: u8, scy: u8, i: int) -> u8 {
    if i % 4 < 3 && spec_on_viewport_border(scx, scy, (i / 4) % 256, (i / 4) / 256) {
        if i % 4 == 0 {
            255
        } else {
            0
        }
    } else {
        orig[i]
    }
}

/// Byte `i` of the background debug surface as a completed frame
/// leaves it: the rendered map with the viewport border marked on top.
pub open spec fn spec_bg_debug_rgba(b: BusView, i: int) -> u8 {
    if i % 4 < 3 && spec_on_viewport_border(
        b.data[SCROLL_X_RW as int],
        b.data[SCROLL_Y_RW as int],
        (i / 4) % 256,
        (i / 4) / 256,
    ) {
        if i % 4 == 0 {
            255
        } else {
            0
        }
    } else {
        spec_bg_rgba(b, i)
    }
}

/// Compute the gray shade of background-map pixel (x, y).
fn bg_shade(mem: &Memory, map_hi: bool, unsigned_data: bool, x: u16, y: u16) -> (r: u8)
    requires
        mem.wf(),
        x < 256,
        y < 256,
    ensures
        r == spec_bg_shade(mem@, map_hi, unsigned_data, x as int, y as int),
{
    let map_base: u16 = if map_hi {
        0x9c00
    } else {
        0x9800
    };
    let idx = mem.get_direct(map_base + (y / 8) * 32 + x / 8);
    let tile_addr: u16 = if unsigned_data {
        0x8000 + idx as u16 * 16
    } else if idx < 128 {
        0x9000 + idx as u16 * 16
    } else {
        0x8800 + (idx as u16 - 128) * 16
    };
    let even = mem.get_direct(tile_addr + (y % 8) * 2);
    let odd = mem.get_direct(tile_addr + (y % 8) * 2 + 1);
    let id = row_color_id(even, odd, (x % 8) as u8);
    palette_shade(mem.get_direct(BG_PALETTE_DATA), id)
}

/// Compute the color id of background-map pixel (x, y).
fn bg_color_id(mem: &Memory, map_hi: bool, unsigned_data: bool, x: u16, y: u16) -> (r: u8)
    requires
        mem.wf(),
        x < 256,
        y < 256,
    ensures
        r == spec_bg_color_id(mem@, map_hi, unsigned_data, x as int, y as int),
        r < 4,
{
    let map_base: u16 = if map_hi {
        0x9c00
    } else {
        0x9800
    };
    let idx = mem.get_direct(map_base + (y / 8) * 32 + x / 8);
    let tile_addr: u16 = if unsigned_data {
        0x8000 + idx as u16 * 16
    } else if idx < 128 {
        0x9000 + idx as u16 * 16
    } else {
        0x8800 + (idx as u16 - 128) * 16
    };
    let even = mem.get_direct(tile_addr + (y % 8) * 2);
    let odd = mem.get_direct(tile_addr + (y % 8) * 2 + 1);
    row_color_id(even, odd, (x % 8) as u8)
}

/// Compute the color id of OAM entry `i` at frame pixel (fx, fy).
fn sprite_color(mem: &Memory, i: u16, fx: u16, fy: u16, tall: bool) -> (r: u8)
    requires
        mem.wf(),
        i < 40,
        fx < 160,
        fy < 144,
        spec_oam_byte(mem@, i as int, 0) <= fy + 16 < spec_oam_byte(mem@, i as int, 0) + (if tall {
            16int
        } else {
            8
        }),
        spec_oam_byte(mem@, i as int, 1) <= fx + 8 < spec_oam_byte(mem@, i as int, 1) + 8,
    ensures
        r == spec_sprite_color(mem@, i as int, fx as int, fy as int, tall),
        r < 4,
{
    let base: u16 = OAM_RAM_START + i * 4;
    let y = mem.get_direct(base) as u16;
    let x = mem.get_direct(base + 1) as u16;
    let tile = mem.get_direct(base + 2);
    let flags = mem.get_direct(base + 3);
    let h: u16 = if tall {
        16
    } else {
        8
    };
    let row0: u16 = fy + 16 - y;
    let row: u16 = if bit_is_set(flags, 6) {
        h - 1 - row0
    } else {
        row0
    };
    let col0: u16 = fx + 8 - x;
    let col: u8 = if bit_is_set(flags, 5) {
        7 - col0 as u8
    } else {
        col0 as u8
    };
    let t: u16 = if tall {
        (tile as u16 / 2) * 2
    } else {
        tile as u16
    };
    let addr: u16 = VRAM_START + t * 16 + row * 2;
    row_color_id(mem.get_direct(addr), mem.get_direct(addr + 1), col)
}

/// A winning sprite is a hit: it covers the line within the ten-per-
/// line limit, covers the column, and is opaque there.
proof fn lemma_best_sprite_hits(b: BusView, fx: int, fy: int, tall: bool, n: int)
    ensures
        spec_best_sprite(b, fx, fy, tall, n) == 40 || spec_sprite_hit(
            b,
            spec_best_sprite(b, fx, fy, tall, n),
            fx,
            fy,
            tall,
        ),
    decreases n,
{
    if n > 0 {
        lemma_best_sprite_hits(b, fx, fy, tall, n - 1);
    }
}

/// Scan the 40 OAM entries for the sprite that wins pixel (fx, fy),
/// honouring the ten-per-line limit; 40 means none.
fn best_sprite(mem: &Memory, fx: u16, fy: u16, tall: bool) -> (r: usize)
    requires
        mem.wf(),
        fx < 160,
        fy < 144,
    ensures
        r == spec_best_sprite(mem@, fx as int, fy as int, tall, 40),
        r <= 40,
{
    let h: u16 = if tall {
        16
    } else {
        8
    };
    let mut best: usize = 40;
    let mut count: u16 = 0;
    let mut i: usize = 0;
    while i < 40
        invariant
            mem.wf(),
            fx < 160,
            fy < 144,
            i <= 40,
            h == (if tall {
                16int
            } else {
                8
            }),
            count == spec_line_sprite_count(mem@, fy as int, tall, i as int),
            count <= i,
            best as int == spec_best_sprite(mem@, fx as int, fy as int, tall, i as int),
            best <= 40,
        decreases 40 - i,
    {
        let base: u16 = OAM_RAM_START + (i as u16) * 4;
        let y = mem.get_direct(base) as u16;
        if y <= fy + 16 && fy + 16 < y + h {
            if count < 10 {
                let x = mem.get_direct(base + 1) as u16;
                if x <= fx + 8 && fx + 8 < x + 8 {
                    let color = sprite_color(mem, i as u16, fx, fy, tall);
                    if color != 0 {
                        if best == 40 {
                            best = i;
                        } else {
                            let best_x = mem.get_direct(OAM_RAM_START + (best as u16) * 4 + 1)
                                as u16;
                            if x < best_x {
                                best = i;
                            }
                        }
                    }
                }
            }
            count = count + 1;
        }
        assert(best as int == spec_best_sprite(mem@, fx as int, fy as int, tall, i + 1));
        i = i + 1;
    }
    best
}

/// Compute the gray shade of frame pixel (fx, fy): the winning sprite
/// over the background and window layers, by the rules of
/// `spec_frame_shade`.
fn frame_shade(mem: &Memory, fx: u16, fy: u16) -> (r: u8)
    requires
        mem.wf(),
        fx < 160,
        fy < 144,
    ensures
        r == spec_frame_shade(mem@, fx as int, fy as int),
{
    let lcdc = mem.get_direct(LCD_CONTROL_RW);
    let scx = mem.get_direct(SCROLL_X_RW) as u16;
    let scy = mem.get_direct(SCROLL_Y_RW) as u16;
    let wy = mem.get_direct(WINDOW_Y_POSITION_RW) as u16;
    let wx = mem.get_direct(WINDOW_X_POSITION_MINUS_7_RW) as u16;
    let unsigned_data = bit_is_set(lcdc, 4);
    let bg_id: u8 = if !bit_is_set(lcdc, 0) {
        0
    } else if bit_is_set(lcdc, 5) && fy >= wy && fx + 7 >= wx {
        bg_color_id(mem, bit_is_set(lcdc, 6), unsigned_data, fx + 7 - wx, fy - wy)
    } else {
        bg_color_id(mem, bit_is_set(lcdc, 3), unsigned_data, (fx + scx) % 256, (fy + scy) % 256)
    };
    let bg_layer: u8 = if !bit_is_set(lcdc, 0) {
        255
    } else {
        palette_shade(mem.get_direct(BG_PALETTE_DATA), bg_id)
    };
    if !bit_is_set(lcdc, 1) {
        return bg_layer;
    }
    let tall = bit_is_set(lcdc, 2);
    let w = best_sprite(mem, fx, fy, tall);
    if w == 40 {
        return bg_layer;
    }
    proof {
        lemma_best_sprite_hits(mem@, fx as int, fy as int, tall, 40);
    }
    let flags = mem.get_direct(OAM_RAM_START + (w as u16) * 4 + 3);
    if bit_is_set(flags, 7) && bg_id != 0 {
        return bg_layer;
    }
    let obp = if bit_is_set(flags, 4) {
        mem.get_direct(OBJ_PALETTE_1)
    } else {
        mem.get_direct(OBJ_PALETTE_0)
    };
    palette_shade(obp, sprite_color(mem, w as u16, fx, fy, tall))
}

/// Decode one 16-byte tile through a palette into its 64 gray shades,
/// row by row.
pub fn calculate_tile(data: &[u8], palette: u8) -> (r: Vec<u8>)
    requires
        data@.len() == 16,
    ensures
        r@.len() == 64,
        forall|i: int| 0 <= i < 64 ==> r@[i] == spec_tile_shade(data@, palette, i),
{
    let mut out: Vec<u8> = Vec::new();
    let mut y: usize = 0;
    while y < 8
        invariant
            y <= 8,
            data@.len() == 16,
            out@.len() == y * 8,
            forall|i: int| 0 <= i < y * 8 ==> out@[i] == spec_tile_shade(data@, palette, i),
        decreases 8 - y,
    {
        let even = data[y * 2];
        let odd = data[y * 2 + 1];
        let mut x: usize = 0;
        while x < 8
            invariant
                y < 8,
                x <= 8,
                data@.len() == 16,
                even == data@[y * 2],
                odd == data@[y * 2 + 1],
                out@.len() == y * 8 + x,
                forall|i: int| 0 <= i < y * 8 + x ==> out@[i] == spec_tile_shade(data@, palette, i),
            decreases 8 - x,
        {
            let id = row_color_id(even, odd, x as u8);
            out.push(palette_shade(palette, id));
            assert(y * 8 + x < 64);
            assert((y * 8 + x) / 8 == y && (y * 8 + x) % 8 == x);
            x = x + 1;
        }
        y = y + 1;
    }
    out
}

pub struct PPU {
    pub lcd_ppu_enable: bool,
    /// false: window map at 0x9800; true: at 0x9c00.
    pub window_tile_map_area: bool,
    pub window_enable: bool,
    /// false: signed tile indices around 0x9000; true: unsigned from 0x8000.
    pub bg_and_window_tile_data_area: bool,
    /// false: background map at 0x9800; true: at 0x9c00.
    pub bg_tile_map_area: bool,
    /// false: 8x8 objects; true: 8x16.
    pub obj_size: bool,
    pub obj_enable: bool,
    pub bg_and_window_enable_priority: bool,
    /// The 160x144 RGBA frame shown to the player.
    pub frame_buffer: Vec<u8>,
    /// The full 256x256 RGBA background map, a debug surface.
    pub bg_frame_buffer: Vec<u8>,
    /// A 160x112 RGBA viewer over the first tiles of VRAM, a debug surface.
    pub tiles_frame_buffer: Vec<u8>,
    pub current_state: PpuMode,
    pub current_state_cycle: u16,
    /// Whether the machine was enabled when last seen: a rising edge
    /// restarts the state machine from OAM scan.
    pub enabled_latch: bool,
}

impl PPU {
    /// Well-formedness: the three buffers keep their fixed sizes and
    /// the in-state cycle counter stays below its state's bound.
    pub open spec fn wf(self) -> bool {
        &&& self.frame_buffer@.len() == 160 * 144 * 4
    &&& self.bg_frame_buffer@.len() == 256 * 256 * 4
    &&& self.tiles_frame_buffer@.len() == 112 * 160 * 4
    &&& match self.current_state {
        PpuMode::OamScan => self.current_state_cycle < 80,
        PpuMode::Drawing => self.current_state_cycle < 289,
        PpuMode::HBlank => self.current_state_cycle < 376,
        PpuMode::VBlank => self.current_state_cycle < 456,
    }
    }

    /// A freshly constructed PPU: the state machine at the top of OAM
    /// scan, no LCDC bits latched, and every surface opaque white.
    pub open spec fn spec_fresh(self) -> bool {
        &&& self.current_state == PpuMode::OamScan
        &&& self.current_state_cycle == 0
        &&& !self.enabled_latch
        &&& !self.lcd_ppu_enable
        &&& !self.window_tile_map_area
        &&& !self.window_enable
        &&& !self.bg_and_window_tile_data_area
        &&& !self.bg_tile_map_area
        &&& !self.obj_size
        &&& !self.obj_enable
        &&& !self.bg_and_window_enable_priority
        &&& self.frame_buffer@.len() == 160 * 144 * 4
        &&& self.bg_frame_buffer@.len() == 256 * 256 * 4
        &&& self.tiles_frame_buffer@.len() == 112 * 160 * 4
        &&& forall|i: int| 0 <= i < 160 * 144 * 4 ==> self.frame_buffer@[i] == 255
        &&& forall|i: int| 0 <= i < 256 * 256 * 4 ==> self.bg_frame_buffer@[i] == 255
        &&& forall|i: int| 0 <= i < 112 * 160 * 4 ==> self.tiles_frame_buffer@[i] == 255
    }

    pub fn new() -> (r: PPU)
        ensures
            r.wf(),
            r.spec_fresh(),
    {
        PPU {
            lcd_ppu_enable: false,
            window_tile_map_area: false,
            window_enable: false,
            bg_and_window_tile_data_area: false,
            bg_tile_map_area: false,
            obj_size: false,
            obj_enable: false,
            bg_and_window_enable_priority: false,
            frame_buffer: vec![255u8; 160 * 144 * 4],
            bg_frame_buffer: vec![255u8; 256 * 256 * 4],
            tiles_frame_buffer: vec![255u8; 112 * 160 * 4],
            current_state: PpuMode::OamScan,
            current_state_cycle: 0,
            enabled_latch: false,
        }
    }

    /// The completed 160x144 RGBA frame.
    pub fn frame_buffer(&self) -> (r: &Vec<u8>)
        ensures
            r@ == self.frame_buffer@,
    {
        &self.frame_buffer
    }

    /// The 256x256 RGBA background map, a debug surface.
    pub fn bg_frame_buffer(&self) -> (r: &Vec<u8>)
        ensures
            r@ == self.bg_frame_buffer@,
    {
        &self.bg_frame_buffer
    }

    /// The RGBA tile-data viewer, a debug surface.
    pub fn tiles_frame_buffer(&self) -> (r: &Vec<u8>)
        ensures
            r@ == self.tiles_frame_buffer@,
    {
        &self.tiles_frame_buffer
    }

    /// Latch the eight LCD-control bits from the bus.
    fn check_lcdc(&mut self, mem: &Memory)
        requires
            mem.wf(),
        ensures
            *final(self) == (PPU {
                lcd_ppu_enable: spec_bit_is_set(spec_read(mem@, LCD_CONTROL_RW), 7),
                window_tile_map_area: spec_bit_is_set(spec_read(mem@, LCD_CONTROL_RW), 6),
                window_enable: spec_bit_is_set(spec_read(mem@, LCD_CONTROL_RW), 5),
                bg_and_window_tile_data_area: spec_bit_is_set(spec_read(mem@, LCD_CONTROL_RW), 4),
                bg_tile_map_area: spec_bit_is_set(spec_read(mem@, LCD_CONTROL_RW), 3),
                obj_size: spec_bit_is_set(spec_read(mem@, LCD_CONTROL_RW), 2),
                obj_enable: spec_bit_is_set(spec_read(mem@, LCD_CONTROL_RW), 1),
                bg_and_window_enable_priority: spec_bit_is_set(spec_read(mem@, LCD_CONTROL_RW), 0),
                ..*old(self)
            }),
    {
        self.lcd_ppu_enable = mem.get_bit(LCD_CONTROL_RW, 7);
        self.window_tile_map_area = mem.get_bit(LCD_CONTROL_RW, 6);
        self.window_enable = mem.get_bit(LCD_CONTROL_RW, 5);
        self.bg_and_window_tile_data_area = mem.get_bit(LCD_CONTROL_RW, 4);
        self.bg_tile_map_area = mem.get_bit(LCD_CONTROL_RW, 3);
        self.obj_size = mem.get_bit(LCD_CONTROL_RW, 2);
        self.obj_enable = mem.get_bit(LCD_CONTROL_RW, 1);
        self.bg_and_window_enable_priority = mem.get_bit(LCD_CONTROL_RW, 0);
    }

    /// Latch every register the PPU mirrors; today that is LCDC.
    fn check_all_registers(&mut self, mem: &Memory)
        requires
            mem.wf(),
        ensures
            *final(self) == (PPU {
                lcd_ppu_enable: spec_bit_is_set(spec_read(mem@, LCD_CONTROL_RW), 7),
                window_tile_map_area: spec_bit_is_set(spec_read(mem@, LCD_CONTROL_RW), 6),
                window_enable: spec_bit_is_set(spec_read(mem@, LCD_CONTROL_RW), 5),
                bg_and_window_tile_data_area: spec_bit_is_set(spec_read(mem@, LCD_CONTROL_RW), 4),
                bg_tile_map_area: spec_bit_is_set(spec_read(mem@, LCD_CONTROL_RW), 3),
                obj_size: spec_bit_is_set(spec_read(mem@, LCD_CONTROL_RW), 2),
                obj_enable: spec_bit_is_set(spec_read(mem@, LCD_CONTROL_RW), 1),
                bg_and_window_enable_priority: spec_bit_is_set(spec_read(mem@, LCD_CONTROL_RW), 0),
                ..*old(self)
            }),
    {
        self.check_lcdc(mem);
    }

    /// Render the 160x144 frame, pixel-exact, alpha opaque: the
    /// sprite, window and background layers composed by
    /// `spec_frame_shade`.
    fn render_frame(&mut self, mem: &Memory)
        requires
            old(self).wf(),
            mem.wf(),
        ensures
            *final(self) == (PPU { frame_buffer: final(self).frame_buffer, ..*old(self) }),
            final(self).wf(),
            forall|i: int|
                0 <= i < 160 * 144 * 4 ==> final(self).frame_buffer@[i] == spec_frame_rgba(
                    mem@,
                    i,
                ),
    {
        let mut fy: usize = 0;
        while fy < 144
            invariant
                fy <= 144,
                mem.wf(),
                self.frame_buffer@.len() == 160 * 144 * 4,
                *self == (PPU { frame_buffer: self.frame_buffer, ..*old(self) }),
                forall|i: int|
                    0 <= i < fy * 160 * 4 ==> self.frame_buffer@[i] == spec_frame_rgba(mem@, i),
            decreases 144 - fy,
        {
            let mut fx: usize = 0;
            while fx < 160
                invariant
                    fy < 144,
                    fx <= 160,
                    mem.wf(),
                    self.frame_buffer@.len() == 160 * 144 * 4,
                    *self == (PPU { frame_buffer: self.frame_buffer, ..*old(self) }),
                    forall|i: int|
                        0 <= i < (fy * 160 + fx) * 4 ==> self.frame_buffer@[i] == spec_frame_rgba(
                            mem@,
                            i,
                        ),
                decreases 160 - fx,
            {
                let shade = frame_shade(mem, fx as u16, fy as u16);
                let idx = (fy * 160 + fx) * 4;
                self.frame_buffer[idx] = shade;
                self.frame_buffer[idx + 1] = shade;
                self.frame_buffer[idx + 2] = shade;
                self.frame_buffer[idx + 3] = 255;
                assert forall|i: int| idx <= i < idx + 4 implies self.frame_buffer@[i]
                    == spec_frame_rgba(mem@, i) by {
                    assert(i / 4 == fy * 160 + fx);
                    assert((i / 4) % 160 == fx);
                    assert((i / 4) / 160 == fy);
                };
                fx = fx + 1;
            }
            fy = fy + 1;
        }
    }

    /// Render the whole 256x256 background map into its debug surface,
    /// pixel-exact, alpha opaque.
    fn draw_bg_frame(&mut self, mem: &Memory)
        requires
            old(self).wf(),
            mem.wf(),
        ensures
            *final(self) == (PPU { bg_frame_buffer: final(self).bg_frame_buffer, ..*old(self) }),
            final(self).wf(),
            forall|i: int|
                0 <= i < 256 * 256 * 4 ==> final(self).bg_frame_buffer@[i] == (if i % 4 == 3 {
                    255u8
                } else {
                    spec_bg_shade(
                        mem@,
                        old(self).bg_tile_map_area,
                        old(self).bg_and_window_tile_data_area,
                        (i / 4) % 256,
                        (i / 4) / 256,
                    )
                }),
    {
        let map_hi = self.bg_tile_map_area;
        let unsigned_data = self.bg_and_window_tile_data_area;
        let mut y: usize = 0;
        while y < 256
            invariant
                y <= 256,
                mem.wf(),
                map_hi == self.bg_tile_map_area,
                unsigned_data == self.bg_and_window_tile_data_area,
                self.bg_frame_buffer@.len() == 256 * 256 * 4,
                *self == (PPU { bg_frame_buffer: self.bg_frame_buffer, ..*old(self) }),
                forall|i: int|
                    0 <= i < y * 256 * 4 ==> self.bg_frame_buffer@[i] == (if i % 4 == 3 {
                        255u8
                    } else {
                        spec_bg_shade(mem@, map_hi, unsigned_data, (i / 4) % 256, (i / 4) / 256)
                    }),
            decreases 256 - y,
        {
            let mut x: usize = 0;
            while x < 256
                invariant
                    y < 256,
                    x <= 256,
                    mem.wf(),
                    map_hi == self.bg_tile_map_area,
                    unsigned_data == self.bg_and_window_tile_data_area,
                    self.bg_frame_buffer@.len() == 256 * 256 * 4,
                    *self == (PPU { bg_frame_buffer: self.bg_frame_buffer, ..*old(self) }),
                    forall|i: int|
                        0 <= i < (y * 256 + x) * 4 ==> self.bg_frame_buffer@[i] == (if i % 4 == 3 {
                            255u8
                        } else {
                            spec_bg_shade(mem@, map_hi, unsigned_data, (i / 4) % 256, (i / 4) / 256)
                        }),
                decreases 256 - x,
            {
                let shade = bg_shade(mem, map_hi, unsigned_data, x as u16, y as u16);
                let idx = (y * 256 + x) * 4;
                self.bg_frame_buffer[idx] = shade;
                self.bg_frame_buffer[idx + 1] = shade;
                self.bg_frame_buffer[idx + 2] = shade;
                self.bg_frame_buffer[idx + 3] = 255;
                assert forall|i: int| idx <= i < idx + 4 implies self.bg_frame_buffer@[i] == (if i
                    % 4 == 3 {
                    255u8
                } else {
                    spec_bg_shade(mem@, map_hi, unsigned_data, (i / 4) % 256, (i / 4) / 256)
                }) by {
                    assert(i / 4 == y * 256 + x);
                    assert((i / 4) % 256 == x);
                    assert((i / 4) / 256 == y);
                };
                x = x + 1;
            }
            y = y + 1;
        }
    }

    /// Render the tile-data viewer: the first 280 tiles of VRAM, 20 to
    /// a row, pixel-exact, alpha opaque.
    fn draw_tiles_frame(&mut self, mem: &Memory)
        requires
            old(self).wf(),
            mem.wf(),
        ensures
            *final(self) == (PPU {
                tiles_frame_buffer: final(self).tiles_frame_buffer,
                ..*old(self)
            }),
            final(self).wf(),
            forall|i: int|
                0 <= i < 112 * 160 * 4 ==> final(self).tiles_frame_buffer@[i] == (if i % 4 == 3 {
                    255u8
                } else {
                    spec_tiles_shade(mem@, (i / 4) % 160, (i / 4) / 160)
                }),
    {
        let mut y: usize = 0;
        while y < 112
            invariant
                y <= 112,
                mem.wf(),
                self.tiles_frame_buffer@.len() == 112 * 160 * 4,
                *self == (PPU { tiles_frame_buffer: self.tiles_frame_buffer, ..*old(self) }),
                forall|i: int|
                    0 <= i < y * 160 * 4 ==> self.tiles_frame_buffer@[i] == (if i % 4 == 3 {
                        255u8
                    } else {
                        spec_tiles_shade(mem@, (i / 4) % 160, (i / 4) / 160)
                    }),
            decreases 112 - y,
        {
            let mut x: usize = 0;
            while x < 160
                invariant
                    y < 112,
                    x <= 160,
                    mem.wf(),
                    self.tiles_frame_buffer@.len() == 112 * 160 * 4,
                    *self == (PPU { tiles_frame_buffer: self.tiles_frame_buffer, ..*old(self) }),
                    forall|i: int|
                        0 <= i < (y * 160 + x) * 4 ==> self.tiles_frame_buffer@[i] == (if i % 4
                            == 3 {
                            255u8
                        } else {
                            spec_tiles_shade(mem@, (i / 4) % 160, (i / 4) / 160)
                        }),
                decreases 160 - x,
            {
                let tile_index: u16 = (y as u16 / 8) * 20 + x as u16 / 8;
                let tile_addr: u16 = VRAM_START + tile_index * 16;
                let even = mem.get_direct(tile_addr + (y as u16 % 8) * 2);
                let odd = mem.get_direct(tile_addr + (y as u16 % 8) * 2 + 1);
                let id = row_color_id(even, odd, (x % 8) as u8);
                let shade = palette_shade(mem.get_direct(BG_PALETTE_DATA), id);
                let idx = (y * 160 + x) * 4;
                self.tiles_frame_buffer[idx] = shade;
                self.tiles_frame_buffer[idx + 1] = shade;
                self.tiles_frame_buffer[idx + 2] = shade;
                self.tiles_frame_buffer[idx + 3] = 255;
                assert forall|i: int| idx <= i < idx + 4 implies self.tiles_frame_buffer@[i] == (
                if i % 4 == 3 {
                    255u8
                } else {
                    spec_tiles_shade(mem@, (i / 4) % 160, (i / 4) / 160)
                }) by {
                    assert(i / 4 == y * 160 + x);
                    assert((i / 4) % 160 == x);
                    assert((i / 4) / 160 == y);
                };
                x = x + 1;
            }
            y = y + 1;
        }
    }

    /// Mark the viewport on the background-map debug surface: the
    /// one-pixel border of the 160x144 window at (SCX, SCY), wrapping
    /// at the map edges, is painted red; every other pixel and every
    /// alpha byte keeps its value.
    fn draw_view_port(&mut self, mem: &Memory)
        requires
            old(self).wf(),
            mem.wf(),
        ensures
            *final(self) == (PPU { bg_frame_buffer: final(self).bg_frame_buffer, ..*old(self) }),
            final(self).wf(),
            forall|i: int|
                0 <= i < 256 * 256 * 4 ==> final(self).bg_frame_buffer@[i] == spec_viewport_marked(
                    old(self).bg_frame_buffer@,
                    mem@.data[SCROLL_X_RW as int],
                    mem@.data[SCROLL_Y_RW as int],
                    i,
                ),
    {
        let scx = mem.get_direct(SCROLL_X_RW) as u16;
        let scy = mem.get_direct(SCROLL_Y_RW) as u16;
        let mut y: usize = 0;
        while y < 256
            invariant
                y <= 256,
                scx < 256,
                scy < 256,
                scx == mem@.data[SCROLL_X_RW as int],
                scy == mem@.data[SCROLL_Y_RW as int],
                self.bg_frame_buffer@.len() == 256 * 256 * 4,
                *self == (PPU { bg_frame_buffer: self.bg_frame_buffer, ..*old(self) }),
                forall|i: int|
                    0 <= i < y * 256 * 4 ==> self.bg_frame_buffer@[i] == spec_viewport_marked(
                        old(self).bg_frame_buffer@,
                        mem@.data[SCROLL_X_RW as int],
                        mem@.data[SCROLL_Y_RW as int],
                        i,
                    ),
                forall|i: int|
                    y * 256 * 4 <= i < 256 * 256 * 4 ==> self.bg_frame_buffer@[i] == old(
                        self,
                    ).bg_frame_buffer@[i],
            decreases 256 - y,
        {
            let dy = (y as u16 + 256 - scy) % 256;
            let mut x: usize = 0;
            while x < 256
                invariant
                    y < 256,
                    x <= 256,
                    scx < 256,
                    scy < 256,
                    scx == mem@.data[SCROLL_X_RW as int],
                    scy == mem@.data[SCROLL_Y_RW as int],
                    dy == (y - scy) % 256,
                    self.bg_frame_buffer@.len() == 256 * 256 * 4,
                    *self == (PPU { bg_frame_buffer: self.bg_frame_buffer, ..*old(self) }),
                    forall|i: int|
                        0 <= i < (y * 256 + x) * 4 ==> self.bg_frame_buffer@[i]
                            == spec_viewport_marked(
                            old(self).bg_frame_buffer@,
                            mem@.data[SCROLL_X_RW as int],
                            mem@.data[SCROLL_Y_RW as int],
                            i,
                        ),
                    forall|i: int|
                        (y * 256 + x) * 4 <= i < 256 * 256 * 4 ==> self.bg_frame_buffer@[i] == old(
                            self,
                        ).bg_frame_buffer@[i],
                decreases 256 - x,
            {
                let dx = (x as u16 + 256 - scx) % 256;
                let idx = (y * 256 + x) * 4;
                proof {
                    assert(dx == (x - scx) % 256);
                    assert(spec_pixel_index_facts(idx as int, x as int, y as int));
                }
                if (dx < 160 && (dy == 0 || dy == 143)) || (dy < 144 && (dx == 0 || dx == 159)) {
                    self.bg_frame_buffer[idx] = 255;
                    self.bg_frame_buffer[idx + 1] = 0;
                    self.bg_frame_buffer[idx + 2] = 0;
                }
                x = x + 1;
            }
            y = y + 1;
        }
    }

    /// Advance the LCD by the T-cycles one CPU step consumed, and say
    /// whether a frame just completed.
    ///
    /// With the LCD disabled the machine is frozen: LY reads 0, the
    /// mode is HBlank, both access gates are open and no interrupt is
    /// raised; re-enabling restarts from OAM scan. Enabled, the state
    /// machine advances by `spec_ppu_advance`; the PPU drives LY, the
    /// low bits of STAT and the two gates, raises the VBlank interrupt
    /// exactly when the frame completes, the STAT interrupt by its
    /// source bits, and renders the frame at the VBlank boundary.
    #[verifier::rlimit(100)]
    #[verifier::spinoff_prover]
    pub fn tick(&mut self, mem: &mut Memory, cpu_cycles: u8) -> (r: bool)
        requires
            old(self).wf(),
            old(mem).wf(),
            cpu_cycles <= 80,
        ensures
            final(self).wf(),
            final(mem).wf(),
            spec_ppu_tick_rel(*old(self), old(mem)@, cpu_cycles, *final(self), final(mem)@, r),
    {
        self.check_all_registers(mem);
        if !self.lcd_ppu_enable {
            self.current_state = PpuMode::HBlank;
            self.current_state_cycle = 0;
            self.enabled_latch = false;
            let stat = mem.get_direct(STATUS_ADDR_RW);
            mem.set_direct(Y_COORDINATE_R, 0);
            mem.set_direct(STATUS_ADDR_RW, (stat / 4) * 4);
            mem.set_vram_accessible(true);
            mem.set_oam_accessible(true);
            assert(final(mem)@.data =~= old(mem)@.data.update(Y_COORDINATE_R as int, 0u8).update(
                STATUS_ADDR_RW as int,
                ((old(mem)@.data[STATUS_ADDR_RW as int] / 4) * 4) as u8,
            ));
            return false;
        }
        if !self.enabled_latch {
            self.enabled_latch = true;
            self.current_state = PpuMode::OamScan;
            self.current_state_cycle = 0;
        }
        let start_mode = self.current_state;
        let ly0 = mem.get_direct(Y_COORDINATE_R);
        let step = ppu_advance(start_mode, self.current_state_cycle + cpu_cycles as u16, ly0);
        self.current_state = step.mode;
        self.current_state_cycle = step.cycle;
        if step.frame {
            self.render_frame(mem);
            self.draw_bg_frame(mem);
            self.draw_view_port(mem);
            self.draw_tiles_frame(mem);
            assert forall|i: int| 0 <= i < 256 * 256 * 4 implies self.bg_frame_buffer@[i]
                == spec_bg_debug_rgba(mem@, i) by {
                assert(spec_read(mem@, LCD_CONTROL_RW) == mem@.data[LCD_CONTROL_RW as int]);
            };
        }
        let stat = mem.get_direct(STATUS_ADDR_RW);
        let lyc = mem.get_direct(LY_COMPARE_RW);
        let stat_irq: bool = (!(step.mode == start_mode) && ((matches!(step.mode, PpuMode::HBlank)
            && bit_is_set(stat, 3)) || (matches!(step.mode, PpuMode::VBlank) && bit_is_set(stat, 4))
            || (matches!(step.mode, PpuMode::OamScan) && bit_is_set(stat, 5)))) || (step.ly != ly0
            && bit_is_set(stat, 6) && step.ly == lyc);
        mem.set_direct(Y_COORDINATE_R, step.ly);
        mem.set_direct(
            STATUS_ADDR_RW,
            (stat / 8) * 8 + (if step.ly == lyc {
                4u8
            } else {
                0
            }) + (if matches!(step.mode, PpuMode::OamScan) {
                2u8
            } else if matches!(step.mode, PpuMode::Drawing) {
                3u8
            } else if matches!(step.mode, PpuMode::VBlank) {
                1u8
            } else {
                0
            }),
        );
        if step.frame {
            mem.set_bit(INTERRUPT_FLAG, 0, true);
        }
        if stat_irq {
            mem.set_bit(INTERRUPT_FLAG, 1, true);
        }
        mem.set_vram_accessible(!matches!(step.mode, PpuMode::Drawing));
        mem.set_oam_accessible(!(matches!(step.mode, PpuMode::Drawing) || matches!(
            step.mode,
            PpuMode::OamScan,
        )));
        step.frame
    }
}

/// One advance of the LCD state machine: the mode and in-state cycle
/// after adding the elapsed T-cycles, the new LY, and whether the
/// machine just entered VBlank — the moment the frame completes.
#[derive(Clone, Copy, PartialEq, Eq, Structural, Debug)]
pub struct PpuStep {
    pub mode: PpuMode,
    pub cycle: u16,
    pub ly: u8,
    pub frame: bool,
}

/// The LCD state machine. OAM scan ends at 80 T-cycles into the line;
/// drawing at 289; the line at 456 (the counter runs from 80 there, so
/// the threshold is 376). Leaving HBlank steps LY: below 144 a new
/// visible line begins, at 144 the machine enters VBlank and the frame
/// is complete. VBlank lines are 456 T-cycles each; when LY passes 153
/// the machine wraps to OAM scan with LY = 0.
pub open spec fn spec_ppu_advance(mode: PpuMode, cycle0: int, ly: u8) -> PpuStep {
    match mode {
        PpuMode::OamScan => if cycle0 >= OAM_CYCLE_IN_4MHZ {
            PpuStep {
                mode: PpuMode::Drawing,
                cycle: (cycle0 - OAM_CYCLE_IN_4MHZ) as u16,
                ly: ly,
                frame: false,
            }
        } else {
            PpuStep { mode: mode, cycle: cycle0 as u16, ly: ly, frame: false }
        },
        PpuMode::Drawing => if cycle0 >= MAX_DRAWING_CYCLE_IN_4MHZ {
            PpuStep { mode: PpuMode::HBlank, cycle: cycle0 as u16, ly: ly, frame: false }
        } else {
            PpuStep { mode: mode, cycle: cycle0 as u16, ly: ly, frame: false }
        },
        PpuMode::HBlank => if cycle0 >= DRAW_AND_HBLANK_CYCLE_IN_4MHZ {
            let ly1 = ly.wrapping_add(1);
            if ly1 < 144 {
                PpuStep {
                    mode: PpuMode::OamScan,
                    cycle: (cycle0 - DRAW_AND_HBLANK_CYCLE_IN_4MHZ) as u16,
                    ly: ly1,
                    frame: false,
                }
            } else {
                PpuStep {
                    mode: PpuMode::VBlank,
                    cycle: (cycle0 - DRAW_AND_HBLANK_CYCLE_IN_4MHZ) as u16,
                    ly: ly1,
                    frame: true,
                }
            }
        } else {
            PpuStep { mode: mode, cycle: cycle0 as u16, ly: ly, frame: false }
        },
        PpuMode::VBlank => if cycle0 >= VBLANK_CYCLE_IN_4MHZ {
            let ly1 = ly.wrapping_add(1);
            if ly1 > VBLANK_END_LY {
                PpuStep {
                    mode: PpuMode::OamScan,
                    cycle: (cycle0 - VBLANK_CYCLE_IN_4MHZ) as u16,
                    ly: 0,
                    frame: false,
                }
            } else {
                PpuStep {
                    mode: PpuMode::VBlank,
                    cycle: (cycle0 - VBLANK_CYCLE_IN_4MHZ) as u16,
                    ly: ly1,
                    frame: false,
                }
            }
        } else {
            PpuStep { mode: mode, cycle: cycle0 as u16, ly: ly, frame: false }
        },
    }
}

/// Executable twin of `spec_ppu_advance`, with the cycle bounds that
/// keep the counter inside its state's window.
fn ppu_advance(mode: PpuMode, cycle: u16, ly: u8) -> (r: PpuStep)
    requires
        match mode {
            PpuMode::OamScan => cycle < 160,
            PpuMode::Drawing => cycle < 369,
            PpuMode::HBlank => cycle < 456,
            PpuMode::VBlank => cycle < 536,
        },
    ensures
        r == spec_ppu_advance(mode, cycle as int, ly),
        match r.mode {
            PpuMode::OamScan => r.cycle < 80,
            PpuMode::Drawing => r.cycle < 289,
            PpuMode::HBlank => r.cycle < 376,
            PpuMode::VBlank => r.cycle < 456,
        },
{
    match mode {
        PpuMode::OamScan => if cycle >= OAM_CYCLE_IN_4MHZ {
            PpuStep {
                mode: PpuMode::Drawing,
                cycle: cycle - OAM_CYCLE_IN_4MHZ,
                ly: ly,
                frame: false,
            }
        } else {
            PpuStep { mode: mode, cycle: cycle, ly: ly, frame: false }
        },
        PpuMode::Drawing => if cycle >= MAX_DRAWING_CYCLE_IN_4MHZ {
            PpuStep { mode: PpuMode::HBlank, cycle: cycle, ly: ly, frame: false }
        } else {
            PpuStep { mode: mode, cycle: cycle, ly: ly, frame: false }
        },
        PpuMode::HBlank => if cycle >= DRAW_AND_HBLANK_CYCLE_IN_4MHZ {
            let ly1 = ly.wrapping_add(1);
            if ly1 < 144 {
                PpuStep {
                    mode: PpuMode::OamScan,
                    cycle: cycle - DRAW_AND_HBLANK_CYCLE_IN_4MHZ,
                    ly: ly1,
                    frame: false,
                }
            } else {
                PpuStep {
                    mode: PpuMode::VBlank,
                    cycle: cycle - DRAW_AND_HBLANK_CYCLE_IN_4MHZ,
                    ly: ly1,
                    frame: true,
                }
            }
        } else {
            PpuStep { mode: mode, cycle: cycle, ly: ly, frame: false }
        },
        PpuMode::VBlank => if cycle >= VBLANK_CYCLE_IN_4MHZ {
            let ly1 = ly.wrapping_add(1);
            if ly1 > VBLANK_END_LY {
                PpuStep {
                    mode: PpuMode::OamScan,
                    cycle: cycle - VBLANK_CYCLE_IN_4MHZ,
                    ly: 0,
                    frame: false,
                }
            } else {
                PpuStep {
                    mode: PpuMode::VBlank,
                    cycle: cycle - VBLANK_CYCLE_IN_4MHZ,
                    ly: ly1,
                    frame: false,
                }
            }
        } else {
            PpuStep { mode: mode, cycle: cycle, ly: ly, frame: false }
        },
    }
}


/// The address of the first byte of the tile a background index
/// selects, under either addressing mode.
pub open spec fn spec_tile_base(unsigned_data: bool, t: u8) -> int {
    if unsigned_data {
        0x8000 + t * 16
    } else if t < 128 {
        0x9000 + t * 16
    } else {
        0x8800 + (t - 128) * 16
    }
}

/// Law: with the selected map filled with one tile index whose 16
/// bytes are all zero, every background-map pixel decodes color id 0
/// — so the whole surface shows palette entry 0 of BGP.
pub proof fn lemma_uniform_background(
    b: BusView,
    map_hi: bool,
    unsigned_data: bool,
    t: u8,
    x: int,
    y: int,
)
    requires
        bus_wf(b),
        0 <= x < 256,
        0 <= y < 256,
        forall|a: int|
            (if map_hi {
                0x9c00int
            } else {
                0x9800
            }) <= a < (if map_hi {
                0x9c00int
            } else {
                0x9800
            }) + 0x400 ==> b.data[a] == t,
        forall|a: int|
            spec_tile_base(unsigned_data, t) <= a < spec_tile_base(unsigned_data, t) + 16
                ==> b.data[a] == 0,
    ensures
        spec_bg_color_id(b, map_hi, unsigned_data, x, y) == 0,
        spec_bg_shade(b, map_hi, unsigned_data, x, y) == spec_palette_shade(
            b.data[BG_PALETTE_DATA as int],
            0,
        ),
{
    assert(0 <= (y / 8) * 32 + x / 8 < 0x400);
    assert(0 <= (y % 8) * 2 && (y % 8) * 2 + 1 < 16);
    assert(b.data[spec_tile_base(unsigned_data, t) + (y % 8) * 2] == 0);
    assert(b.data[spec_tile_base(unsigned_data, t) + (y % 8) * 2 + 1] == 0);
    assert(spec_row_color_id(0, 0, x % 8) == 0);
}

/// Law: with the background on, the window and the sprites off, and
/// the whole selected map pointing at an all-zero tile, every byte of
/// the rendered frame is palette entry 0 of BGP in the color channels
/// and opaque in alpha — whatever SCX and SCY hold.
pub proof fn lemma_uniform_frame(b: BusView, t: u8, i: int)
    requires
        bus_wf(b),
        0 <= i < 160 * 144 * 4,
        spec_bit_is_set(b.data[LCD_CONTROL_RW as int], 0),
        !spec_bit_is_set(b.data[LCD_CONTROL_RW as int], 1),
        !spec_bit_is_set(b.data[LCD_CONTROL_RW as int], 5),
        forall|a: int|
            (if spec_bit_is_set(b.data[LCD_CONTROL_RW as int], 3) {
                0x9c00int
            } else {
                0x9800
            }) <= a < (if spec_bit_is_set(b.data[LCD_CONTROL_RW as int], 3) {
                0x9c00int
            } else {
                0x9800
            }) + 0x400 ==> b.data[a] == t,
        forall|a: int|
            spec_tile_base(spec_bit_is_set(b.data[LCD_CONTROL_RW as int], 4), t) <= a
                < spec_tile_base(spec_bit_is_set(b.data[LCD_CONTROL_RW as int], 4), t) + 16
                ==> b.data[a] == 0,
    ensures
        spec_frame_rgba(b, i) == (if i % 4 == 3 {
            255u8
        } else {
            spec_palette_shade(b.data[BG_PALETTE_DATA as int], 0)
        }),
{
    if i % 4 != 3 {
        let fx = (i / 4) % 160;
        let fy = (i / 4) / 160;
        let scx = b.data[SCROLL_X_RW as int];
        let scy = b.data[SCROLL_Y_RW as int];
        assert(0 <= (fx + scx) % 256 < 256);
        assert(0 <= (fy + scy) % 256 < 256);
        lemma_uniform_background(
            b,
            spec_bit_is_set(b.data[LCD_CONTROL_RW as int], 3),
            spec_bit_is_set(b.data[LCD_CONTROL_RW as int], 4),
            t,
            (fx + scx) % 256,
            (fy + scy) % 256,
        );
    }
}

/// Law: the frame signal fires exactly on the transition from HBlank
/// into VBlank — once per frame, where the VBlank interrupt is raised
/// and the frame buffer is rendered.
pub proof fn lemma_frame_iff_vblank_entry(mode: PpuMode, cycle0: int, ly: u8)
    ensures
        spec_ppu_advance(mode, cycle0, ly).frame <==> (mode == PpuMode::HBlank
            && spec_ppu_advance(mode, cycle0, ly).mode == PpuMode::VBlank),
{
}


/// Everything one PPU advance does: the relation between the PPU and
/// bus handed to `tick` and the machine it leaves, with `frame` the
/// returned signal and `cpu_cycles` the elapsed T-cycles.
pub open spec fn spec_ppu_tick_rel(
    p0: PPU,
    b0: BusView,
    cpu_cycles: u8,
    p1: PPU,
    b1: BusView,
    frame: bool,
) -> bool {
    let lcdc = spec_read(b0, LCD_CONTROL_RW);
    let enabled = spec_bit_is_set(lcdc, 7);
    &&& b1.rom == b0.rom
    &&& b1.boot == b0.boot
    // The eight LCDC bits are latched from the bus as the advance
    // found it.
    &&& p1.lcd_ppu_enable == spec_bit_is_set(lcdc, 7)
    &&& p1.window_tile_map_area == spec_bit_is_set(lcdc, 6)
    &&& p1.window_enable == spec_bit_is_set(lcdc, 5)
    &&& p1.bg_and_window_tile_data_area == spec_bit_is_set(lcdc, 4)
    &&& p1.bg_tile_map_area == spec_bit_is_set(lcdc, 3)
    &&& p1.obj_size == spec_bit_is_set(lcdc, 2)
    &&& p1.obj_enable == spec_bit_is_set(lcdc, 1)
    &&& p1.bg_and_window_enable_priority == spec_bit_is_set(lcdc, 0)
    &&& if !enabled {
        // Frozen: LY forced to 0, mode bits cleared, gates open,
        // every surface untouched.
        &&& frame == false
        &&& p1.current_state == PpuMode::HBlank
        &&& p1.current_state_cycle == 0
        &&& !p1.enabled_latch
        &&& b1.vram_accessible
        &&& b1.oam_accessible
        &&& b1.data == b0.data.update(Y_COORDINATE_R as int, 0u8).update(
            STATUS_ADDR_RW as int,
            ((b0.data[STATUS_ADDR_RW as int] / 4) * 4) as u8,
        )
        &&& p1.frame_buffer@ == p0.frame_buffer@
        &&& p1.bg_frame_buffer@ == p0.bg_frame_buffer@
        &&& p1.tiles_frame_buffer@ == p0.tiles_frame_buffer@
    } else {
        let start_mode = if p0.enabled_latch {
            p0.current_state
        } else {
            PpuMode::OamScan
        };
        let start_cycle: int = if p0.enabled_latch {
            p0.current_state_cycle as int
        } else {
            0
        };
        let ly0 = b0.data[Y_COORDINATE_R as int];
        let step = spec_ppu_advance(start_mode, start_cycle + cpu_cycles, ly0);
        &&& frame == step.frame
        &&& p1.current_state == step.mode
        &&& p1.current_state_cycle == step.cycle
        &&& p1.enabled_latch
        // The gates follow the mode.
        &&& b1.vram_accessible == !(step.mode == PpuMode::Drawing)
        &&& b1.oam_accessible == !(step.mode == PpuMode::Drawing || step.mode
            == PpuMode::OamScan)
        // The PPU touches only LY, STAT and IF.
        &&& forall|a: int|
            0 <= a < 0x10000 && a != Y_COORDINATE_R as int && a != STATUS_ADDR_RW as int && a
                != INTERRUPT_FLAG as int ==> b1.data[a] == b0.data[a]
        &&& b1.data[Y_COORDINATE_R as int] == step.ly
        &&& b1.data[STATUS_ADDR_RW as int] == spec_new_stat(b0, step)
        &&& b1.data[INTERRUPT_FLAG as int] == spec_new_if(b0, start_mode, step)
        // A completed frame renders all three surfaces from the bus as
        // the step found it; otherwise they are untouched.
        &&& step.frame ==> forall|i: int|
            0 <= i < 160 * 144 * 4 ==> p1.frame_buffer@[i] == spec_frame_rgba(b0, i)
        &&& step.frame ==> forall|i: int|
            0 <= i < 256 * 256 * 4 ==> p1.bg_frame_buffer@[i] == spec_bg_debug_rgba(b0, i)
        &&& step.frame ==> forall|i: int|
            0 <= i < 112 * 160 * 4 ==> p1.tiles_frame_buffer@[i] == spec_tiles_rgba(b0, i)
        &&& !step.frame ==> p1.frame_buffer@ == p0.frame_buffer@
        &&& !step.frame ==> p1.bg_frame_buffer@ == p0.bg_frame_buffer@
        &&& !step.frame ==> p1.tiles_frame_buffer@ == p0.tiles_frame_buffer@
    }
}

/// Whether the advance raises the LCD-status interrupt: a mode entered
/// whose STAT source bit is enabled, or an LY step onto the compare
/// line with the compare source enabled.
pub open spec fn spec_stat_irq(b: BusView, old_mode: PpuMode, step: PpuStep) -> bool {
    let stat = b.data[STATUS_ADDR_RW as int];
    ||| (step.mode != old_mode && ((step.mode == PpuMode::HBlank && spec_bit_is_set(stat, 3)) || (
    step.mode == PpuMode::VBlank && spec_bit_is_set(stat, 4)) || (step.mode == PpuMode::OamScan
        && spec_bit_is_set(stat, 5))))
    ||| (step.ly != b.data[Y_COORDINATE_R as int] && spec_bit_is_set(stat, 6) && step.ly
        == b.data[LY_COMPARE_RW as int])
}

/// The interrupt-flag byte after the advance: bit 0 set exactly when
/// the frame completed, bit 1 set when the STAT condition fired.
pub open spec fn spec_new_if(b: BusView, old_mode: PpuMode, step: PpuStep) -> u8 {
    let if0 = b.data[INTERRUPT_FLAG as int];
    let if1 = if step.frame {
        spec_set8(0, if0)
    } else {
        if0
    };
    if spec_stat_irq(b, old_mode, step) {
        spec_set8(1, if1)
    } else {
        if1
    }
}

/// The STAT byte after the advance: the guest's source bits kept, the
/// coincidence bit refreshed, the mode bits driven by the machine.
pub open spec fn spec_new_stat(b: BusView, step: PpuStep) -> u8 {
    (((b.data[STATUS_ADDR_RW as int] / 8) * 8) + (if step.ly == b.data[LY_COMPARE_RW as int] {
        4int
    } else {
        0
    }) + spec_mode_bits(step.mode)) as u8
}

} // verus!
