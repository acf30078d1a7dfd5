//! Addresses and fixed sizes of the machine.

use vstd::prelude::*;

verus! {

// LCD and PPU registers.
pub const LCD_CONTROL_RW: u16 = 0xff40;
pub const STATUS_ADDR_RW: u16 = 0xff41;
pub const SCROLL_Y_RW: u16 = 0xff42;
pub const SCROLL_X_RW: u16 = 0xff43;
pub const Y_COORDINATE_R: u16 = 0xff44;
pub const LY_COMPARE_RW: u16 = 0xff45;
pub const BG_PALETTE_DATA: u16 = 0xff47;
pub const OBJ_PALETTE_0: u16 = 0xff48;
pub const OBJ_PALETTE_1: u16 = 0xff49;
pub const WINDOW_Y_POSITION_RW: u16 = 0xff4a;
pub const WINDOW_X_POSITION_MINUS_7_RW: u16 = 0xff4b;

// Interrupt registers and vectors.
pub const INTERRUPT_ENABLE: u16 = 0xffff;
pub const INTERRUPT_FLAG: u16 = 0xff0f;
pub const INTR_VBLANK: u16 = 0x0040;
pub const INTR_LCDC: u16 = 0x0048;
pub const INTR_TIMER: u16 = 0x0050;
pub const INTR_SERIAL: u16 = 0x0058;
pub const INTR_HIGHTOLOW: u16 = 0x0060;
pub const INTR_VBLANK_BIT: u8 = 0;
pub const INTR_LCDC_BIT: u8 = 1;

// Memory map boundaries.
pub const DISABLE_BOOT_ROM: u16 = 0xff50;
pub const VRAM_START: u16 = 0x8000;
pub const EXTERNAL_RAM_START: u16 = 0xa000;
pub const RAM_START: u16 = 0xc000;
pub const OAM_RAM_START: u16 = 0xfe00;
pub const OAM_RAM_SIZE: u16 = 0xa0;
pub const IO_START: u16 = 0xff00;
pub const HRAM_START: u16 = 0xff80;
pub const BOOT_ROM_SIZE: usize = 0x100;
pub const ADDR_SPACE_SIZE: usize = 0x10000;
pub const MAX_GAME_ROM_SIZE: usize = 0x8000;

// Display geometry.
pub const LCD_WIDTH: u32 = 160;
pub const LCD_HEIGHT: u32 = 144;
pub const BG_SIZE: u32 = 256;
pub const TILE_DATA_SIZE: usize = 16;

// Clock thresholds, in T-cycles of the 4 MHz master clock.
pub const OAM_CYCLE_IN_4MHZ: u16 = 80;
pub const MAX_DRAWING_CYCLE_IN_4MHZ: u16 = 289;
pub const DRAW_AND_HBLANK_CYCLE_IN_4MHZ: u16 = 376;
pub const VBLANK_CYCLE_IN_4MHZ: u16 = 456;
pub const VBLANK_END_LY: u8 = 153;
pub const FRAME_T_CYCLES: u32 = 70224;

/// The interrupt vector for a given interrupt bit: VBlank, LCD status,
/// timer, serial, and joypad, in priority order.
pub open spec fn spec_interrupt_vector(bit: u8) -> u16 {
    if bit == 0 {
        INTR_VBLANK
    } else if bit == 1 {
        INTR_LCDC
    } else if bit == 2 {
        INTR_TIMER
    } else if bit == 3 {
        INTR_SERIAL
    } else {
        INTR_HIGHTOLOW
    }
}

/// Executable twin of `spec_interrupt_vector`.
pub fn interrupt_vector(bit: u8) -> (r: u16)
    requires
        bit < 5,
    ensures
        r == spec_interrupt_vector(bit),
{
    if bit == 0 {
        INTR_VBLANK
    } else if bit == 1 {
        INTR_LCDC
    } else if bit == 2 {
        INTR_TIMER
    } else if bit == 3 {
        INTR_SERIAL
    } else {
        INTR_HIGHTOLOW
    }
}

/// The four gray shades of the monochrome LCD, indexed by palette entry.
pub open spec fn spec_gray_shade(id: u8) -> u8 {
    if id == 0 {
        255
    } else if id == 1 {
        170
    } else if id == 2 {
        85
    } else {
        0
    }
}

/// Executable twin of `spec_gray_shade`.
pub fn gray_shade(id: u8) -> (r: u8)
    ensures
        r == spec_gray_shade(id),
{
    if id == 0 {
        255
    } else if id == 1 {
        170
    } else if id == 2 {
        85
    } else {
        0
    }
}

} // verus!
