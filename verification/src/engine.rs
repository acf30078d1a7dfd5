//! The engine: one CPU, one bus, one PPU, driven by a single clock.
//!
//! A tick runs exactly one CPU step, then advances the PPU by the
//! T-cycles that step consumed, and reports whether a frame completed.
//! Interrupts the PPU raises during the advance become visible to the
//! CPU at the start of the next tick.

use crate::alu::spec_bit_is_set;
use crate::constants::{IO_START, LCD_CONTROL_RW, VRAM_START, Y_COORDINATE_R};
use crate::cpu::{spec_cpu_tick, spec_pending, spec_valid_opcode, Fault, CPU};
use crate::memory::{spec_io_default, spec_read, BusView, CartridgeError, Memory};
use crate::ppu::{spec_ppu_advance, spec_ppu_tick_rel, PpuMode, PPU};
use vstd::prelude::*;

verus! {

pub struct Core {
    pub cpu: CPU,
    pub mem: Memory,
    pub ppu: PPU,
}

impl Core {
    /// Well-formedness of the machine: the bus and the PPU hold their
    /// invariants.
    pub open spec fn wf(self) -> bool {
        self.mem.wf() && self.ppu.wf()
    }

    /// A fresh machine holding the given 256-byte boot ROM and no
    /// cartridge: a power-on CPU, a bus with the post-boot register
    /// defaults and open gates, and a fresh PPU. With `randomize`, RAM
    /// starts with arbitrary bytes.
    pub fn new(boot_rom: Vec<u8>, randomize: bool) -> (r: Core)
        requires
            boot_rom@.len() == 0x100,
        ensures
            r.wf(),
            r.cpu == CPU::spec_initial(),
            r.mem@.rom.len() == 0,
            r.mem@.boot == boot_rom@,
            r.mem@.vram_accessible,
            r.mem@.oam_accessible,
            forall|i: int|
                0 <= i < 0x10000 && !(VRAM_START <= i < IO_START) ==> r.mem@.data[i]
                    == spec_io_default(i),
            !randomize ==> forall|i: int| 0 <= i < 0x10000 ==> r.mem@.data[i] == spec_io_default(i),
            r.ppu.spec_fresh(),
    {
        Core { cpu: CPU::new(), mem: Memory::new(boot_rom, randomize), ppu: PPU::new() }
    }

    /// Accept a cartridge image of at most 32 KiB; a larger one is
    /// refused and the machine stays as it was.
    pub fn load_game_rom(&mut self, rom: Vec<u8>) -> (r: Result<(), CartridgeError>)
        requires
            old(self).wf(),
        ensures
            final(self).wf(),
            final(self).cpu == old(self).cpu,
            final(self).ppu == old(self).ppu,
            rom@.len() <= 0x8000 ==> r is Ok && final(self).mem@ == (BusView {
                rom: rom@,
                ..old(self).mem@
            }),
            rom@.len() > 0x8000 ==> r == Result::<(), CartridgeError>::Err(
                CartridgeError::TooLarge,
            ) && final(self).mem@ == old(self).mem@,
    {
        self.mem.load_rom(rom)
    }

    /// Run one engine tick: one CPU step, then the PPU advanced by the
    /// very T-cycles the step consumed. Returns whether a frame
    /// completed, or the register dump of a fatal decode failure, on
    /// which the machine stops advancing.
    pub fn tick(&mut self) -> (r: Result<bool, Fault>)
        requires
            old(self).wf(),
        ensures
            final(self).wf(),
            // The CPU's step is the step function of the machine.
            final(self).cpu == spec_cpu_tick(old(self).cpu, old(self).mem@).0,
            // A tick fails exactly when the CPU fetches a hole of the
            // opcode table: no dispatch, no halt, an undefined byte.
            r is Err <==> (!(old(self).cpu.spec_ime() && spec_pending(old(self).mem@))
                && !old(self).cpu.spec_halted() && !spec_valid_opcode(
                spec_read(old(self).mem@, old(self).cpu.register_pc),
            )),
            r matches Err(ft) ==> ft.opcode == spec_read(old(self).mem@, old(self).cpu.register_pc)
                && ft.pc == old(self).cpu.register_pc && final(self).ppu == old(self).ppu
                && final(self).mem@ == spec_cpu_tick(old(self).cpu, old(self).mem@).1,
            // On a completed tick the PPU advance is exact too: the
            // bus and PPU the tick leaves stand in the PPU's step
            // relation to the bus the CPU step produced and the
            // T-cycles it charged.
            r is Ok ==> spec_ppu_tick_rel(
                old(self).ppu,
                spec_cpu_tick(old(self).cpu, old(self).mem@).1,
                spec_cpu_tick(old(self).cpu, old(self).mem@).2,
                final(self).ppu,
                final(self).mem@,
                r.unwrap(),
            ),
            // The frame signal is exact: the LCD is on and the state
            // machine, advanced by the step's T-cycles, just entered
            // VBlank.
            r matches Ok(frame) ==> ({
                let b1 = spec_cpu_tick(old(self).cpu, old(self).mem@).1;
                let cyc = spec_cpu_tick(old(self).cpu, old(self).mem@).2;
                let enabled = spec_bit_is_set(spec_read(b1, LCD_CONTROL_RW), 7);
                let start_mode = if old(self).ppu.enabled_latch {
                    old(self).ppu.current_state
                } else {
                    PpuMode::OamScan
                };
                let start_cycle: int = if old(self).ppu.enabled_latch {
                    old(self).ppu.current_state_cycle as int
                } else {
                    0
                };
                frame == (enabled && spec_ppu_advance(
                    start_mode,
                    start_cycle + cyc,
                    b1.data[Y_COORDINATE_R as int],
                ).frame)
            }),
    {
        let cycles = match self.cpu.tick(&mut self.mem) {
            Ok(c) => c,
            Err(ft) => {
                return Err(ft);
            },
        };
        Ok(self.ppu.tick(&mut self.mem, cycles))
    }

    /// The completed 160x144 RGBA frame, valid after a tick returned
    /// true and until the next such tick.
    pub fn get_new_frame_buffer(&self) -> (r: &Vec<u8>)
        ensures
            r@ == self.ppu.frame_buffer@,
    {
        self.ppu.frame_buffer()
    }

    /// The 256x256 RGBA background map, a debug surface.
    pub fn get_bg_frame_buffer(&self) -> (r: &Vec<u8>)
        ensures
            r@ == self.ppu.bg_frame_buffer@,
    {
        self.ppu.bg_frame_buffer()
    }

    /// The RGBA tile-data viewer, a debug surface.
    pub fn get_tiles_frame_buffer(&self) -> (r: &Vec<u8>)
        ensures
            r@ == self.ppu.tiles_frame_buffer@,
    {
        self.ppu.tiles_frame_buffer()
    }
}

} // verus!
