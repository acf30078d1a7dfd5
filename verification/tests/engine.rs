//! Engine-level behavior: cold start through a boot ROM, fatal decode
//! faults, tile decoding and the screen buffer.

use rboy::engine::Core;
use rboy::ppu::calculate_tile;
use rboy::screen::{gameboy_window_size, Screen};

#[test]
fn cold_start_runs_boot_rom_then_cartridge() {
    // A minimal boot ROM: enable the accumulator, write it to the
    // boot-disable register, and fall through; the cartridge then
    // jumps to its entry at 0x0100 and halts.
    let mut boot = vec![0u8; 256];
    boot[0] = 0x3e; // LD A,0x01
    boot[1] = 0x01;
    boot[2] = 0xe0; // LDH (0x50),A
    boot[3] = 0x50;
    let mut rom = vec![0u8; 0x8000];
    rom[4] = 0xc3; // JP 0x0100
    rom[5] = 0x00;
    rom[6] = 0x01;
    rom[0x100] = 0x76; // HALT
    let mut core = Core::new(boot, false);
    core.load_game_rom(rom).unwrap();

    // While the overlay is active the first page reads the boot ROM.
    assert_eq!(core.mem.get(0x0000), 0x3e);
    for _ in 0..8 {
        if core.cpu.is_halted() {
            break;
        }
        core.tick().unwrap();
    }
    assert!(core.cpu.is_halted());
    assert_ne!(core.mem.get(0xff50), 0);
    assert_eq!(core.cpu.register_pc, 0x0101);
    // With the overlay gone the first page reads the cartridge.
    assert_eq!(core.mem.get(0x0000), 0x00);
}

#[test]
fn engine_reports_fault_on_undefined_opcode() {
    let mut rom = vec![0u8; 0x8000];
    rom[0] = 0xdd;
    let mut boot = vec![0u8; 256];
    boot[0] = 0xdd;
    let mut core = Core::new(boot, false);
    core.load_game_rom(rom).unwrap();
    let fault = core.tick().unwrap_err();
    assert_eq!(fault.opcode, 0xdd);
    assert_eq!(fault.pc, 0x0000);
}

#[test]
fn frame_buffer_getters_expose_fixed_sizes() {
    let core = Core::new(vec![0u8; 256], false);
    assert_eq!(core.get_new_frame_buffer().len(), 160 * 144 * 4);
    assert_eq!(core.get_bg_frame_buffer().len(), 256 * 256 * 4);
    assert_eq!(core.get_tiles_frame_buffer().len(), (256 - 144) * 160 * 4);
}

#[test]
fn randomized_ram_keeps_io_defaults() {
    let core = Core::new(vec![0u8; 256], true);
    assert_eq!(core.mem.get(0xff47), 0xfc);
    assert_eq!(core.mem.get(0xff00), 0xcf);
    assert_eq!(core.mem.get(0xff41), 0x84);
}

#[test]
fn calculate_tile_decodes_planes_and_palette() {
    // Row 0: low plane 0x0f, high plane 0x00 — the right four pixels
    // are color 1. With the identity palette that is shade 170.
    let mut data = vec![0u8; 16];
    data[0] = 0x0f;
    let tile = calculate_tile(&data, 0b11100100);
    assert_eq!(tile.len(), 64);
    for x in 0..4 {
        assert_eq!(tile[x], 255);
    }
    for x in 4..8 {
        assert_eq!(tile[x], 170);
    }
    // Every other row decodes color 0.
    assert_eq!(tile[8], 255);
    assert_eq!(tile[63], 255);
    // The high plane contributes two, not one.
    let mut data2 = vec![0u8; 16];
    data2[1] = 0x80;
    let tile2 = calculate_tile(&data2, 0b11100100);
    assert_eq!(tile2[0], 85);
}

#[test]
fn screen_buffer_updates_one_pixel() {
    let mut screen = Screen::new(2, false);
    assert_eq!(screen.frame_buffer().len(), 160 * 144 * 4);
    screen.update_pixel_in_buffer(3, 1, 0x40);
    let idx = ((1 * 160 + 3) * 4) as usize;
    let buf = screen.frame_buffer();
    assert_eq!(buf[idx], 0x40);
    assert_eq!(buf[idx + 1], 0x40);
    assert_eq!(buf[idx + 2], 0x40);
    assert_eq!(buf[idx + 3], 255);
    assert_eq!(buf[0], 255);
}

#[test]
fn window_size_scales_the_lcd() {
    assert_eq!(gameboy_window_size(1), (160, 144));
    assert_eq!(gameboy_window_size(3), (480, 432));
}
