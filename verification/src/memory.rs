//! The unified 16-bit memory bus.
//!
//! One address space of 65536 bytes arbitrates the boot-ROM overlay, the
//! cartridge ROM, video RAM, work RAM, OAM, the I/O registers, high RAM
//! and the interrupt registers. Reads are total: every address returns a
//! defined byte. Writes to read-only regions are silently dropped.

use crate::alu::{spec_bit_is_set, spec_res8, spec_set8, bit_is_set, res8, set8};
use crate::constants::{
    ADDR_SPACE_SIZE, BG_PALETTE_DATA, DISABLE_BOOT_ROM, EXTERNAL_RAM_START, IO_START,
    MAX_GAME_ROM_SIZE, OAM_RAM_SIZE, OAM_RAM_START, OBJ_PALETTE_0, OBJ_PALETTE_1, STATUS_ADDR_RW,
    VRAM_START, Y_COORDINATE_R,
};
use vstd::prelude::*;
use vstd::slice::slice_subrange;

verus! {

/// The mathematical view of the bus: the backing byte array, the two
/// read-only images, and the two access-gating switches the PPU drives.
pub ghost struct BusView {
    pub data: Seq<u8>,
    pub rom: Seq<u8>,
    pub boot: Seq<u8>,
    pub vram_accessible: bool,
    pub oam_accessible: bool,
}

/// Well-formedness of the bus: full address space, a complete boot ROM,
/// and a cartridge image that fits the no-mapper window.
pub open spec fn bus_wf(b: BusView) -> bool {
    &&& b.data.len() == 0x10000
    &&& b.boot.len() == 0x100
    &&& b.rom.len() <= 0x8000
}

/// What a read of `addr` returns: boot ROM while the overlay is active,
/// cartridge ROM below 0x8000 (0xff past the end of the image), gated
/// VRAM and OAM, and the backing byte everywhere else.
pub open spec fn spec_read(b: BusView, addr: u16) -> u8 {
    if b.data[DISABLE_BOOT_ROM as int] == 0 && addr < 0x100 {
        b.boot[addr as int]
    } else if addr < VRAM_START {
        if addr < b.rom.len() {
            b.rom[addr as int]
        } else {
            0xff
        }
    } else if addr < EXTERNAL_RAM_START {
        if b.vram_accessible {
            b.data[addr as int]
        } else {
            0xff
        }
    } else if OAM_RAM_START <= addr && addr < OAM_RAM_START + OAM_RAM_SIZE {
        if b.oam_accessible {
            b.data[addr as int]
        } else {
            0xff
        }
    } else {
        b.data[addr as int]
    }
}

/// Whether a guest write to `addr` takes effect: ROM, the prohibited
/// region, LY and a spent boot-disable register drop writes; gated VRAM
/// and OAM drop them while inaccessible.
pub open spec fn spec_writable(b: BusView, addr: u16) -> bool {
    if addr < VRAM_START {
        false
    } else if addr < EXTERNAL_RAM_START {
        b.vram_accessible
    } else if addr < OAM_RAM_START {
        true
    } else if addr < OAM_RAM_START + OAM_RAM_SIZE {
        b.oam_accessible
    } else if addr < IO_START {
        false
    } else if addr == Y_COORDINATE_R {
        false
    } else if addr == DISABLE_BOOT_ROM {
        b.data[DISABLE_BOOT_ROM as int] == 0
    } else {
        true
    }
}

/// The byte actually stored by a write: the joypad register keeps its
/// low nibble (the button state), takes bits 4 and 5 from the guest and
/// reads bits 6 and 7 as one; every other address stores the byte as is.
pub open spec fn spec_write_val(b: BusView, addr: u16, val: u8) -> u8 {
    if addr == IO_START {
        ((val / 16 % 4) * 16 + 192 + b.data[IO_START as int] % 16) as u8
    } else {
        val
    }
}

/// The bus after a guest write.
pub open spec fn spec_write(b: BusView, addr: u16, val: u8) -> BusView {
    if spec_writable(b, addr) {
        BusView { data: b.data.update(addr as int, spec_write_val(b, addr, val)), ..b }
    } else {
        b
    }
}

/// The fixed post-boot value of each I/O register; zero elsewhere.
pub open spec fn spec_io_default(addr: int) -> u8 {
    if addr == IO_START {
        0xcf
    } else if addr == STATUS_ADDR_RW {
        0x84
    } else if addr == 0xff46 {
        0xff
    } else if addr == BG_PALETTE_DATA {
        0xfc
    } else if addr == OBJ_PALETTE_0 {
        0xff
    } else if addr == OBJ_PALETTE_1 {
        0xff
    } else {
        0
    }
}

/// Why a cartridge image was refused.
#[derive(Clone, Copy, PartialEq, Eq, Structural, Debug)]
pub enum CartridgeError {
    /// The image does not fit the 32 KiB no-mapper window.
    TooLarge,
}

/// The memory bus. The PPU owns the two gating switches; everything else
/// is reached through `get` and `set` (guest side) or the direct setters
/// (engine side).
pub struct Memory {
    data: Vec<u8>,
    game_rom: Vec<u8>,
    boot_rom: Vec<u8>,
    pub vram_accessible: bool,
    pub oam_accessible: bool,
}

impl View for Memory {
    type V = BusView;

    closed spec fn view(&self) -> BusView {
        BusView {
            data: self.data@,
            rom: self.game_rom@,
            boot: self.boot_rom@,
            vram_accessible: self.vram_accessible,
            oam_accessible: self.oam_accessible,
        }
    }
}

/// Relies on `rand::thread_rng` and `rand::RngCore::fill_bytes`: fills
/// the whole buffer with bytes from the thread-local generator. Nothing
/// is promised of the values.
#[verifier::external_body]
fn random_bytes(n: usize) -> (r: Vec<u8>)
    ensures
        r@.len() == n,
{
    let mut v = vec![0u8; n];
    rand::RngCore::fill_bytes(&mut rand::thread_rng(), v.as_mut_slice());
    v
}

impl Memory {
    /// A fresh bus holding the given boot ROM and no cartridge. With
    /// `randomize`, RAM from 0x8000 up to the I/O page starts with
    /// arbitrary bytes, as uninitialized memory does on the machine;
    /// the I/O registers always take their fixed post-boot values.
    pub fn new(boot_rom: Vec<u8>, randomize: bool) -> (r: Memory)
        requires
            boot_rom@.len() == 0x100,
        ensures
            r.wf(),
            r@.rom.len() == 0,
            r@.boot == boot_rom@,
            r@.vram_accessible,
            r@.oam_accessible,
            forall|i: int|
                0 <= i < 0x10000 && !(VRAM_START <= i < IO_START) ==> r@.data[i]
                    == spec_io_default(i),
            !randomize ==> forall|i: int| 0 <= i < 0x10000 ==> r@.data[i] == spec_io_default(i),
    {
        let mut data: Vec<u8> = vec![0u8; ADDR_SPACE_SIZE];
        if randomize {
            let rnd = random_bytes((IO_START - VRAM_START) as usize);
            let mut i: usize = 0;
            while i < (IO_START - VRAM_START) as usize
                invariant
                    data@.len() == 0x10000,
                    rnd@.len() == IO_START - VRAM_START,
                    i <= IO_START - VRAM_START,
                    forall|j: int| 0 <= j < 0x10000 && !(VRAM_START <= j < IO_START) ==> data@[j] == 0,
                decreases (IO_START - VRAM_START) as usize - i,
            {
                data[VRAM_START as usize + i] = rnd[i];
                i = i + 1;
            }
        }
        data[IO_START as usize] = 0xcf;
        data[STATUS_ADDR_RW as usize] = 0x84;
        data[0xff46] = 0xff;
        data[BG_PALETTE_DATA as usize] = 0xfc;
        data[OBJ_PALETTE_0 as usize] = 0xff;
        data[OBJ_PALETTE_1 as usize] = 0xff;
        Memory {
            data,
            game_rom: Vec::new(),
            boot_rom,
            vram_accessible: true,
            oam_accessible: true,
        }
    }

    /// Well-formedness of the bus.
    pub open spec fn wf(self) -> bool {
        bus_wf(self@)
    }

    /// Accept a cartridge image of at most 32 KiB; a larger one is
    /// refused and the bus is left as it was.
    pub fn load_rom(&mut self, rom: Vec<u8>) -> (r: Result<(), CartridgeError>)
        requires
            old(self).wf(),
        ensures
            final(self).wf(),
            rom@.len() <= MAX_GAME_ROM_SIZE ==> r is Ok && final(self)@ == (BusView {
                rom: rom@,
                ..old(self)@
            }),
            rom@.len() > MAX_GAME_ROM_SIZE ==> r == Result::<(), CartridgeError>::Err(
                CartridgeError::TooLarge,
            ) && final(self)@ == old(self)@,
    {
        if rom.len() > MAX_GAME_ROM_SIZE {
            Err(CartridgeError::TooLarge)
        } else {
            self.game_rom = rom;
            assert(self@ =~= (BusView { rom: self.game_rom@, ..old(self)@ }));
            Ok(())
        }
    }

    /// A guest read. Total: every address returns a defined byte.
    pub fn get(&self, addr: u16) -> (r: u8)
        requires
            self.wf(),
        ensures
            r == spec_read(self@, addr),
    {
        if self.data[DISABLE_BOOT_ROM as usize] == 0 && addr < 0x100 {
            self.boot_rom[addr as usize]
        } else if addr < VRAM_START {
            if (addr as usize) < self.game_rom.len() {
                self.game_rom[addr as usize]
            } else {
                0xff
            }
        } else if addr < EXTERNAL_RAM_START {
            if self.vram_accessible {
                self.data[addr as usize]
            } else {
                0xff
            }
        } else if OAM_RAM_START <= addr && addr < OAM_RAM_START + OAM_RAM_SIZE {
            if self.oam_accessible {
                self.data[addr as usize]
            } else {
                0xff
            }
        } else {
            self.data[addr as usize]
        }
    }

    /// A guest write, subject to the region rules.
    pub fn set(&mut self, addr: u16, val: u8)
        requires
            old(self).wf(),
        ensures
            final(self).wf(),
            final(self)@ == spec_write(old(self)@, addr, val),
    {
        let writable: bool = if addr < VRAM_START {
            false
        } else if addr < EXTERNAL_RAM_START {
            self.vram_accessible
        } else if addr < OAM_RAM_START {
            true
        } else if addr < OAM_RAM_START + OAM_RAM_SIZE {
            self.oam_accessible
        } else if addr < IO_START {
            false
        } else if addr == Y_COORDINATE_R {
            false
        } else if addr == DISABLE_BOOT_ROM {
            self.data[DISABLE_BOOT_ROM as usize] == 0
        } else {
            true
        };
        if writable {
            let stored: u8 = if addr == IO_START {
                (val / 16 % 4) * 16 + 192 + self.data[IO_START as usize] % 16
            } else {
                val
            };
            self.data[addr as usize] = stored;
            assert(final(self)@ =~= spec_write(old(self)@, addr, val));
        } else {
            assert(final(self)@ =~= spec_write(old(self)@, addr, val));
        }
    }

    /// A read of one bit of a guest-visible byte.
    pub fn get_bit(&self, addr: u16, bit: u8) -> (r: bool)
        requires
            self.wf(),
        ensures
            r == spec_bit_is_set(spec_read(self@, addr), bit),
    {
        bit_is_set(self.get(addr), bit)
    }

    /// An engine-side write of one bit, straight into the backing byte:
    /// the PPU and the interrupt machinery use it for the registers they
    /// own, past the guest write masks.
    pub fn set_bit(&mut self, addr: u16, bit: u8, one: bool)
        requires
            old(self).wf(),
        ensures
            final(self).wf(),
            final(self)@ == (BusView {
                data: old(self)@.data.update(
                    addr as int,
                    if one {
                        spec_set8(bit, old(self)@.data[addr as int])
                    } else {
                        spec_res8(bit, old(self)@.data[addr as int])
                    },
                ),
                ..old(self)@
            }),
    {
        let cur = self.data[addr as usize];
        let stored: u8 = if one {
            set8(bit, cur)
        } else {
            res8(bit, cur)
        };
        self.data[addr as usize] = stored;
        assert(final(self)@ =~= (BusView {
            data: old(self)@.data.update(
                addr as int,
                if one {
                    spec_set8(bit, old(self)@.data[addr as int])
                } else {
                    spec_res8(bit, old(self)@.data[addr as int])
                },
            ),
            ..old(self)@
        }));
    }

    /// An engine-side write of a whole byte, straight into the backing
    /// byte array: the PPU drives LY and the STAT mode bits through it.
    pub fn set_direct(&mut self, addr: u16, val: u8)
        requires
            old(self).wf(),
        ensures
            final(self).wf(),
            final(self)@ == (BusView { data: old(self)@.data.update(addr as int, val), ..old(self)@ }),
    {
        self.data[addr as usize] = val;
        assert(final(self)@ =~= (BusView {
            data: old(self)@.data.update(addr as int, val),
            ..old(self)@
        }));
    }

    /// Open or close the VRAM gate; the PPU owns it.
    pub fn set_vram_accessible(&mut self, v: bool)
        ensures
            final(self)@ == (BusView { vram_accessible: v, ..old(self)@ }),
    {
        self.vram_accessible = v;
        assert(final(self)@ =~= (BusView { vram_accessible: v, ..old(self)@ }));
    }

    /// Open or close the OAM gate; the PPU owns it.
    pub fn set_oam_accessible(&mut self, v: bool)
        ensures
            final(self)@ == (BusView { oam_accessible: v, ..old(self)@ }),
    {
        self.oam_accessible = v;
        assert(final(self)@ =~= (BusView { oam_accessible: v, ..old(self)@ }));
    }

    /// An engine-side read of a backing byte, past the gates: the
    /// renderer owns VRAM and OAM while it draws.
    pub fn get_direct(&self, addr: u16) -> (r: u8)
        requires
            self.wf(),
        ensures
            r == self@.data[addr as int],
    {
        self.data[addr as usize]
    }

    /// A read-only window into the backing bytes, as the renderer uses
    /// it to fetch tile data and maps.
    pub fn get_chunck(&self, addr: u16, size: usize) -> (r: &[u8])
        requires
            self.wf(),
            addr + size <= 0x10000,
        ensures
            r@ == self@.data.subrange(addr as int, addr + size),
    {
        slice_subrange(self.data.as_slice(), addr as usize, addr as usize + size)
    }
}

/// The guest-visible content of a byte under the address's write mask:
/// the two select bits for the joypad register, nothing for LY, the
/// whole byte elsewhere.
pub open spec fn spec_masked(addr: u16, v: u8) -> u8 {
    if addr == IO_START {
        v / 16 % 4
    } else if addr == Y_COORDINATE_R {
        0
    } else {
        v
    }
}

/// Law: while the drawing gate is closed, every VRAM read returns
/// 0xff, whatever the RAM holds.
pub proof fn lemma_gated_vram_reads_ff(b: BusView, addr: u16)
    requires
        bus_wf(b),
        !b.vram_accessible,
        VRAM_START <= addr < EXTERNAL_RAM_START,
    ensures
        spec_read(b, addr) == 0xff,
{
}

/// Law: while the OAM gate is closed, every OAM read returns 0xff.
pub proof fn lemma_gated_oam_reads_ff(b: BusView, addr: u16)
    requires
        bus_wf(b),
        !b.oam_accessible,
        OAM_RAM_START <= addr < OAM_RAM_START + OAM_RAM_SIZE,
    ensures
        spec_read(b, addr) == 0xff,
{
}

/// Law: writing a byte and reading it back returns the byte masked by
/// the address's writable bits — the identity for general RAM, bits 4
/// and 5 for the joypad register, and nothing for LY, whose writes the
/// bus drops.
pub proof fn lemma_write_then_read(b: BusView, addr: u16, val: u8)
    requires
        bus_wf(b),
        addr == Y_COORDINATE_R || (addr >= VRAM_START && spec_writable(b, addr)),
    ensures
        spec_masked(addr, spec_read(spec_write(b, addr, val), addr)) == spec_masked(addr, val),
{
    let b2 = spec_write(b, addr, val);
    if addr == Y_COORDINATE_R {
    } else {
        assert(b2.data[DISABLE_BOOT_ROM as int] == 0 ==> addr >= 0x100);
    }
}

} // verus!
