//! Verified core of a monochrome handheld-console emulator.
//!
//! The crate models the classic DMG machine: a unified 16-bit memory bus
//! with a boot-ROM overlay and access gating, an LR35902-compatible CPU
//! that executes one instruction per tick and services interrupts, and a
//! pixel-processing unit that advances an LCD state machine in lockstep
//! with the CPU clock and renders grayscale frames.

pub mod alu;
pub mod constants;
pub mod cpu;
pub mod engine;
pub mod memory;
pub mod ppu;
pub mod screen;
