//! Bus behavior: write/read masks, the boot-ROM overlay, cartridge
//! loading and access gating.

use rboy::memory::{CartridgeError, Memory};
use rboy::ppu::PPU;

fn boot_disabled_bus() -> Memory {
    let mut mem = Memory::new(vec![0u8; 256], false);
    mem.set(0xff50, 1);
    mem
}

#[test]
fn write_then_read_general_ram_is_identity() {
    let mut mem = boot_disabled_bus();
    for (addr, val) in [
        (0xc000u16, 0x00u8),
        (0xc000, 0xff),
        (0xdfff, 0x5a),
        (0x8123, 0xa5),
        (0xa010, 0x77),
        (0xfe9f, 0x12),
        (0xff80, 0x34),
        (0xfffe, 0x56),
    ] {
        mem.set(addr, val);
        assert_eq!(mem.get(addr), val);
    }
}

#[test]
fn write_then_read_joypad_keeps_select_bits() {
    // Only bits 4 and 5 are guest-writable; 6 and 7 read as one; the
    // low nibble is the button state the bus already held.
    let mut mem = boot_disabled_bus();
    let before = mem.get(0xff00);
    mem.set(0xff00, 0x20);
    let after = mem.get(0xff00);
    assert_eq!(after & 0x30, 0x20);
    assert_eq!(after & 0xc0, 0xc0);
    assert_eq!(after & 0x0f, before & 0x0f);
}

#[test]
fn write_to_ly_is_dropped() {
    let mut mem = boot_disabled_bus();
    let before = mem.get(0xff44);
    mem.set(0xff44, 0x7b);
    assert_eq!(mem.get(0xff44), before);
}

#[test]
fn rom_region_is_read_only() {
    let mut mem = boot_disabled_bus();
    mem.load_rom(vec![0x11u8; 0x4000]).unwrap();
    mem.set(0x1234, 0x99);
    assert_eq!(mem.get(0x1234), 0x11);
    // Past the end of a short image the bus reads 0xff.
    assert_eq!(mem.get(0x7fff), 0xff);
}

#[test]
fn boot_overlay_covers_first_page_until_disabled() {
    let mut boot = vec![0u8; 256];
    boot[0] = 0xaa;
    boot[255] = 0xbb;
    let mut mem = Memory::new(boot, false);
    let mut rom = vec![0u8; 0x8000];
    rom[0] = 0x11;
    rom[255] = 0x22;
    rom[256] = 0x33;
    mem.load_rom(rom).unwrap();
    assert_eq!(mem.get(0x0000), 0xaa);
    assert_eq!(mem.get(0x00ff), 0xbb);
    assert_eq!(mem.get(0x0100), 0x33);
    mem.set(0xff50, 1);
    assert_eq!(mem.get(0x0000), 0x11);
    assert_eq!(mem.get(0x00ff), 0x22);
    // The disable register is sticky: it cannot be written back to 0.
    mem.set(0xff50, 0);
    assert_eq!(mem.get(0x0000), 0x11);
}

#[test]
fn oversized_cartridge_is_refused() {
    let mut mem = boot_disabled_bus();
    assert_eq!(
        mem.load_rom(vec![0u8; 0x8001]),
        Err(CartridgeError::TooLarge)
    );
    // The bus is untouched: reads still find no cartridge.
    assert_eq!(mem.get(0x0000), 0xff);
    assert!(mem.load_rom(vec![0u8; 0x8000]).is_ok());
}

#[test]
fn prohibited_region_drops_writes() {
    let mut mem = boot_disabled_bus();
    let before = mem.get(0xfea0);
    mem.set(0xfea0, 0x42);
    assert_eq!(mem.get(0xfea0), before);
}

#[test]
fn vram_gated_during_drawing_mode() {
    // During Drawing, VRAM reads return 0xff while work RAM still
    // reads back what was written.
    let mut mem = boot_disabled_bus();
    let mut ppu = PPU::new();
    mem.set(0x8000, 0x5a);
    mem.set(0xc000, 0x77);
    mem.set(0xff40, 0x80); // LCD on
    ppu.tick(&mut mem, 80); // OAM scan complete: Drawing begins
    assert_eq!(mem.get(0x8000), 0xff);
    assert_eq!(mem.get(0x9abc), 0xff);
    assert_eq!(mem.get(0xc000), 0x77);
    // A write into gated VRAM is dropped without an error.
    mem.set(0x8000, 0x99);
    // After HBlank begins the region is readable again, unchanged.
    for _ in 0..4 {
        ppu.tick(&mut mem, 80);
    }
    assert_eq!(mem.get(0x8000), 0x5a);
}

#[test]
fn oam_gated_during_oam_scan() {
    let mut mem = boot_disabled_bus();
    let mut ppu = PPU::new();
    mem.set(0xfe00, 0x66);
    mem.set(0xff40, 0x80);
    ppu.tick(&mut mem, 4); // OAM scan has begun
    assert_eq!(mem.get(0xfe00), 0xff);
    for _ in 0..5 {
        ppu.tick(&mut mem, 80); // into HBlank
    }
    assert_eq!(mem.get(0xfe00), 0x66);
}

#[test]
fn get_chunck_windows_the_backing_bytes() {
    let mut mem = boot_disabled_bus();
    mem.set(0x8000, 0x11);
    mem.set(0x8001, 0x22);
    mem.set(0x800f, 0x33);
    let chunk = mem.get_chunck(0x8000, 16);
    assert_eq!(chunk.len(), 16);
    assert_eq!(chunk[0], 0x11);
    assert_eq!(chunk[1], 0x22);
    assert_eq!(chunk[15], 0x33);
}

#[test]
fn set_bit_and_get_bit_single_bits() {
    let mut mem = boot_disabled_bus();
    mem.set(0xc123, 0);
    mem.set_bit(0xc123, 5, true);
    assert!(mem.get_bit(0xc123, 5));
    assert_eq!(mem.get(0xc123), 0x20);
    mem.set_bit(0xc123, 5, false);
    assert!(!mem.get_bit(0xc123, 5));
    assert_eq!(mem.get(0xc123), 0x00);
    // Setting a bit twice keeps it set.
    mem.set_bit(0xc123, 0, true);
    mem.set_bit(0xc123, 0, true);
    assert_eq!(mem.get(0xc123), 0x01);
}
