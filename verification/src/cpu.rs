//! The LR35902-compatible CPU.
//!
//! Eight 8-bit registers, addressable as four 16-bit pairs, a stack
//! pointer, a program counter and the interrupt-master-enable switch.
//! The flag register F exists only in its upper nibble: the four
//! condition flags are stored as booleans and the byte is synthesized on
//! demand, so bits 0 to 3 of F always read as zero and are ignored on
//! writes — the invariant the hardware imposes on any write to AF.
//!
//! `tick` executes exactly one instruction (a prefixed pair counts as
//! one) and returns the elapsed T-cycles, or dispatches one pending
//! interrupt instead when the master enable is set.

use crate::alu::{
    add16, add8, addsp16, adc8, and8, bit8, bit_is_set, cp8, daa8, dec8, inc8, or8, res8, rl8,
    rlc8, rr8, rrc8, sbc8, set8, sla8, spec_add16, spec_add8, spec_addsp16, spec_adc8, spec_and8,
    spec_bit8, spec_bit_is_set, spec_cp8, spec_daa8, spec_dec8, spec_inc8, spec_or8, spec_res8,
    spec_rl8, spec_rlc8, spec_rr8, spec_rrc8, spec_sbc8, spec_set8, spec_sla8, spec_sra8,
    spec_srl8, spec_sub8, spec_swap8, spec_xor8, sra8, srl8, sub8, swap8, xor8, Flags,
};
use crate::constants::{
    interrupt_vector, spec_interrupt_vector, INTERRUPT_ENABLE, INTERRUPT_FLAG,
};
use crate::memory::{bus_wf, spec_read, spec_write, BusView, Memory};
use vstd::prelude::*;

verus! {

/// A named register together with a value of its width, as used by the
/// generic accessors `get_value` and `set_value`.
#[derive(Clone, Copy, PartialEq, Eq, Structural, Debug)]
pub enum RegisterValue {
    A(u8),
    F(u8),
    B(u8),
    C(u8),
    D(u8),
    E(u8),
    H(u8),
    L(u8),
    SP(u16),
    PC(u16),
    AF(u16),
    BC(u16),
    DE(u16),
    HL(u16),
}

/// A named condition flag with a value, for `get_flag` and `set_flag`.
#[derive(Clone, Copy, PartialEq, Eq, Structural, Debug)]
pub enum Flag {
    Z(bool),
    N(bool),
    H(bool),
    C(bool),
}

/// The register dump of a fatal decode failure: the offending opcode,
/// the address it was fetched from, and the whole register file.
#[derive(Clone, Copy, PartialEq, Eq, Structural, Debug)]
pub struct Fault {
    pub opcode: u8,
    pub pc: u16,
    pub a: u8,
    pub f: u8,
    pub b: u8,
    pub c: u8,
    pub d: u8,
    pub e: u8,
    pub h: u8,
    pub l: u8,
    pub sp: u16,
}

#[derive(Clone, Copy, PartialEq, Eq, Structural, Debug)]
pub struct CPU {
    pub register_a: u8,
    pub register_b: u8,
    pub register_c: u8,
    pub register_d: u8,
    pub register_e: u8,
    pub register_h: u8,
    pub register_l: u8,
    pub flag_z: bool,
    pub flag_n: bool,
    pub flag_h: bool,
    pub flag_c: bool,
    pub register_sp: u16,
    pub register_pc: u16,
    pub interrupt_master_enable_flag: bool,
    pub ime_pending: bool,
    pub halted: bool,
}

/// The F byte synthesized from four flag booleans: Z at bit 7, N at 6,
/// H at 5, C at 4; the low nibble is always zero.
pub open spec fn spec_pack_flags(z: bool, n: bool, h: bool, c: bool) -> u8 {
    ((if z {
        128int
    } else {
        0
    }) + (if n {
        64int
    } else {
        0
    }) + (if h {
        32int
    } else {
        0
    }) + (if c {
        16int
    } else {
        0
    })) as u8
}

/// Executable twin of `spec_pack_flags`.
pub fn pack_flags(z: bool, n: bool, h: bool, c: bool) -> (r: u8)
    ensures
        r == spec_pack_flags(z, n, h, c),
{
    (if z {
        128u8
    } else {
        0
    }) + (if n {
        64
    } else {
        0
    }) + (if h {
        32
    } else {
        0
    }) + (if c {
        16
    } else {
        0
    })
}

impl CPU {
    /// The synthesized F register byte.
    pub open spec fn f_value(self) -> u8 {
        spec_pack_flags(self.flag_z, self.flag_n, self.flag_h, self.flag_c)
    }

    /// The 16-bit pairs, big-endian within each pair.
    pub open spec fn af(self) -> u16 {
        (self.register_a * 256 + self.f_value()) as u16
    }

    pub open spec fn bc(self) -> u16 {
        (self.register_b * 256 + self.register_c) as u16
    }

    pub open spec fn de(self) -> u16 {
        (self.register_d * 256 + self.register_e) as u16
    }

    pub open spec fn hl(self) -> u16 {
        (self.register_h * 256 + self.register_l) as u16
    }

    /// The interrupt master enable switch.
    pub open spec fn spec_ime(self) -> bool {
        self.interrupt_master_enable_flag
    }

    /// Whether the CPU is parked behind a HALT.
    pub open spec fn spec_halted(self) -> bool {
        self.halted
    }

    /// The CPU with its flag booleans taken from the upper nibble of a
    /// byte; the low nibble is ignored, as the hardware does.
    pub open spec fn spec_with_f(self, v: u8) -> CPU {
        CPU {
            flag_z: spec_bit_is_set(v, 7),
            flag_n: spec_bit_is_set(v, 6),
            flag_h: spec_bit_is_set(v, 5),
            flag_c: spec_bit_is_set(v, 4),
            ..self
        }
    }

    /// The CPU with the given flags.
    pub open spec fn spec_with_flags(self, f: Flags) -> CPU {
        CPU { flag_z: f.z, flag_n: f.n, flag_h: f.h, flag_c: f.c, ..self }
    }

    /// The power-on register file: everything zero, interrupts off.
    pub open spec fn spec_initial() -> CPU {
        CPU {
            register_a: 0,
            register_b: 0,
            register_c: 0,
            register_d: 0,
            register_e: 0,
            register_h: 0,
            register_l: 0,
            flag_z: false,
            flag_n: false,
            flag_h: false,
            flag_c: false,
            register_sp: 0,
            register_pc: 0,
            interrupt_master_enable_flag: false,
            ime_pending: false,
            halted: false,
        }
    }

    pub fn new() -> (r: CPU)
        ensures
            r == CPU::spec_initial(),
    {
        CPU {
            register_a: 0,
            register_b: 0,
            register_c: 0,
            register_d: 0,
            register_e: 0,
            register_h: 0,
            register_l: 0,
            flag_z: false,
            flag_n: false,
            flag_h: false,
            flag_c: false,
            register_sp: 0,
            register_pc: 0,
            interrupt_master_enable_flag: false,
            ime_pending: false,
            halted: false,
        }
    }

    /// Read of the interrupt master enable, for drivers and tests.
    pub fn ime(&self) -> (r: bool)
        ensures
            r == self.spec_ime(),
    {
        self.interrupt_master_enable_flag
    }

    /// Whether the CPU is parked behind a HALT.
    pub fn is_halted(&self) -> (r: bool)
        ensures
            r == self.spec_halted(),
    {
        self.halted
    }

    pub fn set_flag(&mut self, flag: &Flag)
        ensures
            *final(self) == (match *flag {
                Flag::Z(v) => (CPU { flag_z: v, ..*old(self) }),
                Flag::N(v) => (CPU { flag_n: v, ..*old(self) }),
                Flag::H(v) => (CPU { flag_h: v, ..*old(self) }),
                Flag::C(v) => (CPU { flag_c: v, ..*old(self) }),
            }),
    {
        match flag {
            Flag::Z(v) => self.flag_z = *v,
            Flag::N(v) => self.flag_n = *v,
            Flag::H(v) => self.flag_h = *v,
            Flag::C(v) => self.flag_c = *v,
        }
    }

    pub fn get_flag(&self, flag: &Flag) -> (r: bool)
        ensures
            r == (match *flag {
                Flag::Z(_) => self.flag_z,
                Flag::N(_) => self.flag_n,
                Flag::H(_) => self.flag_h,
                Flag::C(_) => self.flag_c,
            }),
    {
        match flag {
            Flag::Z(_) => self.flag_z,
            Flag::N(_) => self.flag_n,
            Flag::H(_) => self.flag_h,
            Flag::C(_) => self.flag_c,
        }
    }

    /// Store a value into the named register. A write to F or AF takes
    /// only the upper nibble of the flag byte; writes to a pair set both
    /// halves, the high byte first in the name.
    pub fn set_value(&mut self, reg: &RegisterValue)
        ensures
            *final(self) == (match *reg {
                RegisterValue::A(v) => (CPU { register_a: v, ..*old(self) }),
                RegisterValue::F(v) => old(self).spec_with_f(v),
                RegisterValue::B(v) => (CPU { register_b: v, ..*old(self) }),
                RegisterValue::C(v) => (CPU { register_c: v, ..*old(self) }),
                RegisterValue::D(v) => (CPU { register_d: v, ..*old(self) }),
                RegisterValue::E(v) => (CPU { register_e: v, ..*old(self) }),
                RegisterValue::H(v) => (CPU { register_h: v, ..*old(self) }),
                RegisterValue::L(v) => (CPU { register_l: v, ..*old(self) }),
                RegisterValue::SP(v) => (CPU { register_sp: v, ..*old(self) }),
                RegisterValue::PC(v) => (CPU { register_pc: v, ..*old(self) }),
                RegisterValue::AF(v) => (CPU {
                    register_a: (v / 256) as u8,
                    ..*old(self)
                }).spec_with_f((v % 256) as u8),
                RegisterValue::BC(v) => (CPU {
                    register_b: (v / 256) as u8,
                    register_c: (v % 256) as u8,
                    ..*old(self)
                }),
                RegisterValue::DE(v) => (CPU {
                    register_d: (v / 256) as u8,
                    register_e: (v % 256) as u8,
                    ..*old(self)
                }),
                RegisterValue::HL(v) => (CPU {
                    register_h: (v / 256) as u8,
                    register_l: (v % 256) as u8,
                    ..*old(self)
                }),
            }),
    {
        match reg {
            RegisterValue::A(v) => self.register_a = *v,
            RegisterValue::F(v) => self.store_f(*v),
            RegisterValue::B(v) => self.register_b = *v,
            RegisterValue::C(v) => self.register_c = *v,
            RegisterValue::D(v) => self.register_d = *v,
            RegisterValue::E(v) => self.register_e = *v,
            RegisterValue::H(v) => self.register_h = *v,
            RegisterValue::L(v) => self.register_l = *v,
            RegisterValue::SP(v) => self.register_sp = *v,
            RegisterValue::PC(v) => self.register_pc = *v,
            RegisterValue::AF(v) => {
                self.register_a = (*v / 256) as u8;
                self.store_f((*v % 256) as u8);
            },
            RegisterValue::BC(v) => {
                self.register_b = (*v / 256) as u8;
                self.register_c = (*v % 256) as u8;
            },
            RegisterValue::DE(v) => {
                self.register_d = (*v / 256) as u8;
                self.register_e = (*v % 256) as u8;
            },
            RegisterValue::HL(v) => {
                self.register_h = (*v / 256) as u8;
                self.register_l = (*v % 256) as u8;
            },
        }
    }

    /// Read the named register; the value inside the argument is ignored.
    pub fn get_value(&self, reg: &RegisterValue) -> (r: RegisterValue)
        ensures
            r == (match *reg {
                RegisterValue::A(_) => RegisterValue::A(self.register_a),
                RegisterValue::F(_) => RegisterValue::F(self.f_value()),
                RegisterValue::B(_) => RegisterValue::B(self.register_b),
                RegisterValue::C(_) => RegisterValue::C(self.register_c),
                RegisterValue::D(_) => RegisterValue::D(self.register_d),
                RegisterValue::E(_) => RegisterValue::E(self.register_e),
                RegisterValue::H(_) => RegisterValue::H(self.register_h),
                RegisterValue::L(_) => RegisterValue::L(self.register_l),
                RegisterValue::SP(_) => RegisterValue::SP(self.register_sp),
                RegisterValue::PC(_) => RegisterValue::PC(self.register_pc),
                RegisterValue::AF(_) => RegisterValue::AF(self.af()),
                RegisterValue::BC(_) => RegisterValue::BC(self.bc()),
                RegisterValue::DE(_) => RegisterValue::DE(self.de()),
                RegisterValue::HL(_) => RegisterValue::HL(self.hl()),
            }),
    {
        match reg {
            RegisterValue::A(_) => RegisterValue::A(self.register_a),
            RegisterValue::F(_) => RegisterValue::F(pack_flags(
                self.flag_z,
                self.flag_n,
                self.flag_h,
                self.flag_c,
            )),
            RegisterValue::B(_) => RegisterValue::B(self.register_b),
            RegisterValue::C(_) => RegisterValue::C(self.register_c),
            RegisterValue::D(_) => RegisterValue::D(self.register_d),
            RegisterValue::E(_) => RegisterValue::E(self.register_e),
            RegisterValue::H(_) => RegisterValue::H(self.register_h),
            RegisterValue::L(_) => RegisterValue::L(self.register_l),
            RegisterValue::SP(_) => RegisterValue::SP(self.register_sp),
            RegisterValue::PC(_) => RegisterValue::PC(self.register_pc),
            RegisterValue::AF(_) => RegisterValue::AF(
                (self.register_a as u16) * 256 + pack_flags(
                    self.flag_z,
                    self.flag_n,
                    self.flag_h,
                    self.flag_c,
                ) as u16,
            ),
            RegisterValue::BC(_) => RegisterValue::BC(
                (self.register_b as u16) * 256 + self.register_c as u16,
            ),
            RegisterValue::DE(_) => RegisterValue::DE(
                (self.register_d as u16) * 256 + self.register_e as u16,
            ),
            RegisterValue::HL(_) => RegisterValue::HL(
                (self.register_h as u16) * 256 + self.register_l as u16,
            ),
        }
    }

    /// Store a byte into the flag booleans, dropping its low nibble.
    fn store_f(&mut self, v: u8)
        ensures
            *final(self) == old(self).spec_with_f(v),
    {
        self.flag_z = bit_is_set(v, 7);
        self.flag_n = bit_is_set(v, 6);
        self.flag_h = bit_is_set(v, 5);
        self.flag_c = bit_is_set(v, 4);
    }

    /// Store an ALU flag result.
    fn store_flags(&mut self, f: Flags)
        ensures
            *final(self) == old(self).spec_with_flags(f),
    {
        self.flag_z = f.z;
        self.flag_n = f.n;
        self.flag_h = f.h;
        self.flag_c = f.c;
    }

    /// Read the byte at PC and advance PC past it.
    fn get_pc_and_move(&mut self) -> (r: u16)
        ensures
            r == old(self).register_pc,
            *final(self) == (CPU {
                register_pc: old(self).register_pc.wrapping_add(1),
                ..*old(self)
            }),
    {
        let v = self.register_pc;
        self.register_pc = self.register_pc.wrapping_add(1);
        v
    }

    /// Fetch the immediate byte at PC.
    fn get_mem_u8(&mut self, mem: &Memory) -> (r: u8)
        requires
            mem.wf(),
        ensures
            r == spec_read(mem@, old(self).register_pc),
            *final(self) == (CPU {
                register_pc: old(self).register_pc.wrapping_add(1),
                ..*old(self)
            }),
    {
        let addr = self.get_pc_and_move();
        mem.get(addr)
    }

    /// Fetch an immediate byte and lift it into the I/O page.
    fn get_mem_a8(&mut self, mem: &Memory) -> (r: u16)
        requires
            mem.wf(),
        ensures
            r == 0xff00 + spec_read(mem@, old(self).register_pc),
            *final(self) == (CPU {
                register_pc: old(self).register_pc.wrapping_add(1),
                ..*old(self)
            }),
    {
        let v = self.get_mem_u8(mem);
        v as u16 + 0xff00
    }

    /// Fetch a little-endian 16-bit immediate at PC.
    fn get_mem_u16(&mut self, mem: &Memory) -> (r: u16)
        requires
            mem.wf(),
        ensures
            r == spec_imm16(mem@, old(self).register_pc),
            *final(self) == (CPU {
                register_pc: old(self).register_pc.wrapping_add(2),
                ..*old(self)
            }),
    {
        let lo = self.get_mem_u8(mem) as u16;
        let hi = self.get_mem_u8(mem) as u16;
        assert(self.register_pc == old(self).register_pc.wrapping_add(2));
        hi * 256 + lo
    }

    /// Read the byte HL points at.
    fn get_mem_hl(&self, mem: &Memory) -> (r: u8)
        requires
            mem.wf(),
        ensures
            r == spec_read(mem@, self.hl()),
    {
        mem.get((self.register_h as u16) * 256 + self.register_l as u16)
    }

    /// Write the byte HL points at.
    fn set_mem_hl(&self, mem: &mut Memory, v: u8)
        requires
            old(mem).wf(),
        ensures
            final(mem).wf(),
            final(mem)@ == spec_write(old(mem)@, self.hl(), v),
    {
        mem.set((self.register_h as u16) * 256 + self.register_l as u16, v);
    }

    /// Push a 16-bit value: high byte at SP-1, low byte at SP-2.
    fn push16(&mut self, mem: &mut Memory, v: u16)
        requires
            old(mem).wf(),
        ensures
            final(mem).wf(),
            final(mem)@ == spec_push16(old(mem)@, old(self).register_sp, v),
            *final(self) == (CPU {
                register_sp: old(self).register_sp.wrapping_sub(2),
                ..*old(self)
            }),
    {
        self.register_sp = self.register_sp.wrapping_sub(1);
        mem.set(self.register_sp, (v / 256) as u8);
        self.register_sp = self.register_sp.wrapping_sub(1);
        mem.set(self.register_sp, (v % 256) as u8);
        assert(self.register_sp == old(self).register_sp.wrapping_sub(2));
    }

    /// Pop a 16-bit value: low byte at SP, high byte at SP+1.
    fn pop16(&mut self, mem: &Memory) -> (r: u16)
        requires
            mem.wf(),
        ensures
            r == spec_pop16_val(mem@, old(self).register_sp),
            *final(self) == (CPU {
                register_sp: old(self).register_sp.wrapping_add(2),
                ..*old(self)
            }),
    {
        let lo = mem.get(self.register_sp) as u16;
        let hi = mem.get(self.register_sp.wrapping_add(1)) as u16;
        self.register_sp = self.register_sp.wrapping_add(2);
        lo + hi * 256
    }

    /// Read the 8-bit register selected by a decode index: B, C, D, E,
    /// H, L, the byte at (HL), A.
    fn reg8_get(&self, mem: &Memory, idx: u8) -> (r: u8)
        requires
            mem.wf(),
        ensures
            r == spec_reg8_get(*self, mem@, idx),
    {
        if idx == 0 {
            self.register_b
        } else if idx == 1 {
            self.register_c
        } else if idx == 2 {
            self.register_d
        } else if idx == 3 {
            self.register_e
        } else if idx == 4 {
            self.register_h
        } else if idx == 5 {
            self.register_l
        } else if idx == 6 {
            self.get_mem_hl(mem)
        } else {
            self.register_a
        }
    }

    /// Write the 8-bit register selected by a decode index.
    fn reg8_set(&mut self, mem: &mut Memory, idx: u8, v: u8)
        requires
            old(mem).wf(),
        ensures
            final(mem).wf(),
            *final(self) == spec_reg8_set(*old(self), old(mem)@, idx, v).0,
            final(mem)@ == spec_reg8_set(*old(self), old(mem)@, idx, v).1,
    {
        if idx == 0 {
            self.register_b = v;
        } else if idx == 1 {
            self.register_c = v;
        } else if idx == 2 {
            self.register_d = v;
        } else if idx == 3 {
            self.register_e = v;
        } else if idx == 4 {
            self.register_h = v;
        } else if idx == 5 {
            self.register_l = v;
        } else if idx == 6 {
            self.set_mem_hl(mem, v);
        } else {
            self.register_a = v;
        }
    }

    /// The branch condition selected by a decode index: NZ, Z, NC, C.
    fn cond(&self, idx: u8) -> (r: bool)
        ensures
            r == spec_cond(*self, idx),
    {
        if idx == 0 {
            !self.flag_z
        } else if idx == 1 {
            self.flag_z
        } else if idx == 2 {
            !self.flag_c
        } else {
            self.flag_c
        }
    }

    /// Service the lowest-numbered pending-and-enabled interrupt, if
    /// any: clear its flag bit, clear the master enable, leave HALT,
    /// push PC and jump to the vector. Returns whether one was pending.
    fn check_interrupt(&mut self, mem: &mut Memory) -> (r: bool)
        requires
            old(mem).wf(),
        ensures
            final(mem).wf(),
            r == spec_pending(old(mem)@),
            !spec_pending(old(mem)@) ==> *final(self) == *old(self) && final(mem)@ == old(mem)@,
            spec_pending(old(mem)@) ==> ({
                let bit = spec_lowest_pending(old(mem)@);
                &&& *final(self) == (CPU {
                    register_pc: spec_interrupt_vector(bit),
                    register_sp: old(self).register_sp.wrapping_sub(2),
                    interrupt_master_enable_flag: false,
                    halted: false,
                    ..*old(self)
                })
                &&& final(mem)@ == spec_push16(
                    spec_write(
                        old(mem)@,
                        INTERRUPT_FLAG,
                        spec_res8(bit, spec_read(old(mem)@, INTERRUPT_FLAG)),
                    ),
                    old(self).register_sp,
                    old(self).register_pc,
                )
            }),
    {
        let iflag = mem.get(INTERRUPT_FLAG);
        let ienable = mem.get(INTERRUPT_ENABLE);
        let bit: u8 = if bit_is_set(iflag, 0) && bit_is_set(ienable, 0) {
            0
        } else if bit_is_set(iflag, 1) && bit_is_set(ienable, 1) {
            1
        } else if bit_is_set(iflag, 2) && bit_is_set(ienable, 2) {
            2
        } else if bit_is_set(iflag, 3) && bit_is_set(ienable, 3) {
            3
        } else if bit_is_set(iflag, 4) && bit_is_set(ienable, 4) {
            4
        } else {
            5
        };
        if bit < 5 {
            mem.set(INTERRUPT_FLAG, res8(bit, iflag));
            let pc = self.register_pc;
            self.push16(mem, pc);
            self.register_pc = interrupt_vector(bit);
            self.interrupt_master_enable_flag = false;
            self.halted = false;
            true
        } else {
            false
        }
    }

    /// Read the 16-bit pair selected by a decode index.
    fn rp_get(&self, p: u8) -> (r: u16)
        ensures
            r == spec_rp_get(*self, p),
    {
        if p == 0 {
            (self.register_b as u16) * 256 + self.register_c as u16
        } else if p == 1 {
            (self.register_d as u16) * 256 + self.register_e as u16
        } else if p == 2 {
            (self.register_h as u16) * 256 + self.register_l as u16
        } else {
            self.register_sp
        }
    }

    /// Write the 16-bit pair selected by a decode index.
    fn rp_set(&mut self, p: u8, v: u16)
        ensures
            *final(self) == spec_rp_set(*old(self), p, v),
    {
        if p == 0 {
            self.register_b = (v / 256) as u8;
            self.register_c = (v % 256) as u8;
        } else if p == 1 {
            self.register_d = (v / 256) as u8;
            self.register_e = (v % 256) as u8;
        } else if p == 2 {
            self.register_h = (v / 256) as u8;
            self.register_l = (v % 256) as u8;
        } else {
            self.register_sp = v;
        }
    }

    /// Apply an 8-bit ALU operation against A.
    #[verifier::rlimit(60)]
    fn alu_dispatch(&mut self, fam: u8, v: u8)
        ensures
            *final(self) == spec_alu(*old(self), fam, v),
    {
        if fam == 0 {
            let r = add8(self.register_a, v);
            self.register_a = r.0;
            self.store_flags(r.1);
            assert(*self == spec_alu(*old(self), fam, v));
        } else if fam == 1 {
            let r = adc8(self.register_a, v, self.flag_c);
            self.register_a = r.0;
            self.store_flags(r.1);
            assert(*self == spec_alu(*old(self), fam, v));
        } else if fam == 2 {
            let r = sub8(self.register_a, v);
            self.register_a = r.0;
            self.store_flags(r.1);
            assert(*self == spec_alu(*old(self), fam, v));
        } else if fam == 3 {
            let r = sbc8(self.register_a, v, self.flag_c);
            self.register_a = r.0;
            self.store_flags(r.1);
            assert(*self == spec_alu(*old(self), fam, v));
        } else if fam == 4 {
            let r = and8(self.register_a, v);
            self.register_a = r.0;
            self.store_flags(r.1);
            assert(*self == spec_alu(*old(self), fam, v));
        } else if fam == 5 {
            let r = xor8(self.register_a, v);
            self.register_a = r.0;
            self.store_flags(r.1);
            assert(*self == spec_alu(*old(self), fam, v));
        } else if fam == 6 {
            let r = or8(self.register_a, v);
            self.register_a = r.0;
            self.store_flags(r.1);
            assert(*self == spec_alu(*old(self), fam, v));
        } else {
            let f = cp8(self.register_a, v);
            self.store_flags(f);
            assert(*self == spec_alu(*old(self), fam, v));
        }
    }

    /// A relative jump from the current PC.
    fn jump_rel(&mut self, d: u8)
        ensures
            *final(self) == (CPU {
                register_pc: spec_jr_target(old(self).register_pc, d),
                ..*old(self)
            }),
    {
        if d < 128 {
            self.register_pc = self.register_pc.wrapping_add(d as u16);
        } else {
            self.register_pc = self.register_pc.wrapping_sub(256 - d as u16);
        }
    }

    /// Execute one CB-prefixed instruction: the rotate and shift family,
    /// BIT, RES or SET, on the operand its low three bits select.
    fn exec_cb(&mut self, mem: &mut Memory) -> (r: u8)
        requires
            old(mem).wf(),
        ensures
            final(mem).wf(),
            r == 8 || r == 12 || r == 16,
            r == ({
                let cb = spec_read(old(mem)@, old(self).register_pc);
                if cb % 8 == 6 {
                    if cb / 64 == 1 {
                        12u8
                    } else {
                        16u8
                    }
                } else {
                    8u8
                }
            }),
            *final(self) == spec_cb_op(
                *old(self),
                old(mem)@,
                spec_read(old(mem)@, old(self).register_pc),
            ).0,
            final(mem)@ == spec_cb_op(
                *old(self),
                old(mem)@,
                spec_read(old(mem)@, old(self).register_pc),
            ).1,
    {
        let cb = self.get_mem_u8(mem);
        let idx = cb % 8;
        let sub = (cb / 8) % 8;
        let grp = cb / 64;
        if grp == 0 {
            let v = self.reg8_get(mem, idx);
            let (s, f): (u8, Flags) = if sub == 0 {
                rlc8(v)
            } else if sub == 1 {
                rrc8(v)
            } else if sub == 2 {
                rl8(v, self.flag_c)
            } else if sub == 3 {
                rr8(v, self.flag_c)
            } else if sub == 4 {
                sla8(v)
            } else if sub == 5 {
                sra8(v)
            } else if sub == 6 {
                swap8(v)
            } else {
                srl8(v)
            };
            self.reg8_set(mem, idx, s);
            self.store_flags(f);
            if idx == 6 {
                16
            } else {
                8
            }
        } else if grp == 1 {
            let v = self.reg8_get(mem, idx);
            let f = bit8(sub, v, self.flag_c);
            self.store_flags(f);
            if idx == 6 {
                12
            } else {
                8
            }
        } else if grp == 2 {
            let v = self.reg8_get(mem, idx);
            self.reg8_set(mem, idx, res8(sub, v));
            if idx == 6 {
                16
            } else {
                8
            }
        } else {
            let v = self.reg8_get(mem, idx);
            self.reg8_set(mem, idx, set8(sub, v));
            if idx == 6 {
                16
            } else {
                8
            }
        }
    }

    /// Execute a column-zero instruction of the low block: NOP, STOP,
    /// LD (a16),SP and the relative jumps.
    #[verifier::spinoff_prover]
    fn exec_low_z0(&mut self, mem: &mut Memory, op: u8) -> (r: u8)
        requires
            old(mem).wf(),
            op < 0x40,
            op % 8 == 0,
        ensures
            final(mem).wf(),
            4 <= r <= 24 && r % 4 == 0,
            r == spec_instr_cycles(*old(self), old(mem)@, op),
            *final(self) == spec_exec_low(*old(self), old(mem)@, op).0,
            final(mem)@ == spec_exec_low(*old(self), old(mem)@, op).1,
    {
        match op {
            0x10 => {
                // STOP carries one padding byte.
                let _pad = self.get_mem_u8(mem);
                4
            },
            0x08 => {
                let addr = self.get_mem_u16(mem);
                mem.set(addr, (self.register_sp % 256) as u8);
                mem.set(addr.wrapping_add(1), (self.register_sp / 256) as u8);
                20
            },
            0x18 => {
                let d = self.get_mem_u8(mem);
                self.jump_rel(d);
                12
            },
            0x20 | 0x28 | 0x30 | 0x38 => {
                let d = self.get_mem_u8(mem);
                if self.cond((op - 0x20) / 8) {
                    self.jump_rel(d);
                    12
                } else {
                    8
                }
            },
            _ => 4,  // NOP
        }
    }

    /// Execute a column-one or column-two instruction of the low
    /// block: the 16-bit immediate loads, ADD HL,rr, and the indirect
    /// accumulator transfers with their HL stepping variants.
    #[verifier::spinoff_prover]
    fn exec_low_z12(&mut self, mem: &mut Memory, op: u8) -> (r: u8)
        requires
            old(mem).wf(),
            op < 0x40,
            op % 8 == 1 || op % 8 == 2,
        ensures
            final(mem).wf(),
            4 <= r <= 24 && r % 4 == 0,
            r == spec_instr_cycles(*old(self), old(mem)@, op),
            *final(self) == spec_exec_low(*old(self), old(mem)@, op).0,
            final(mem)@ == spec_exec_low(*old(self), old(mem)@, op).1,
    {
        match op {
            0x01 | 0x11 | 0x21 | 0x31 => {
                let v = self.get_mem_u16(mem);
                self.rp_set(op / 16, v);
                12
            },
            0x02 | 0x12 => {
                let addr = self.rp_get(op / 16);
                mem.set(addr, self.register_a);
                8
            },
            0x22 => {
                let addr = self.rp_get(2);
                mem.set(addr, self.register_a);
                self.rp_set(2, addr.wrapping_add(1));
                8
            },
            0x32 => {
                let addr = self.rp_get(2);
                mem.set(addr, self.register_a);
                self.rp_set(2, addr.wrapping_sub(1));
                8
            },
            0x0a | 0x1a => {
                let addr = self.rp_get(op / 16);
                self.register_a = mem.get(addr);
                8
            },
            0x2a => {
                let addr = self.rp_get(2);
                self.register_a = mem.get(addr);
                self.rp_set(2, addr.wrapping_add(1));
                8
            },
            0x3a => {
                let addr = self.rp_get(2);
                self.register_a = mem.get(addr);
                self.rp_set(2, addr.wrapping_sub(1));
                8
            },
            _ => {
                // ADD HL,rr
                let v = self.rp_get(op / 16);
                let hl = self.rp_get(2);
                let r = add16(hl, v, self.flag_z);
                self.rp_set(2, r.0);
                self.store_flags(r.1);
                8
            },
        }
    }

    /// Execute a column-three to column-six instruction of the low
    /// block: the 16-bit steps and the 8-bit increments, decrements
    /// and immediate loads.
    #[verifier::spinoff_prover]
    fn exec_low_z3456(&mut self, mem: &mut Memory, op: u8) -> (r: u8)
        requires
            old(mem).wf(),
            op < 0x40,
            op % 8 == 3 || op % 8 == 4 || op % 8 == 5 || op % 8 == 6,
        ensures
            final(mem).wf(),
            4 <= r <= 24 && r % 4 == 0,
            r == spec_instr_cycles(*old(self), old(mem)@, op),
            *final(self) == spec_exec_low(*old(self), old(mem)@, op).0,
            final(mem)@ == spec_exec_low(*old(self), old(mem)@, op).1,
    {
        let z = op % 8;
        let y = (op / 8) % 8;
        if z == 3 {
            let p = op / 16;
            let v = self.rp_get(p);
            if op % 16 == 3 {
                self.rp_set(p, v.wrapping_add(1));
            } else {
                self.rp_set(p, v.wrapping_sub(1));
            }
            8
        } else if z == 4 {
            let v = self.reg8_get(mem, y);
            let r = inc8(v, self.flag_c);
            self.reg8_set(mem, y, r.0);
            self.store_flags(r.1);
            if y == 6 {
                12
            } else {
                4
            }
        } else if z == 5 {
            let v = self.reg8_get(mem, y);
            let r = dec8(v, self.flag_c);
            self.reg8_set(mem, y, r.0);
            self.store_flags(r.1);
            if y == 6 {
                12
            } else {
                4
            }
        } else {
            let v = self.get_mem_u8(mem);
            self.reg8_set(mem, y, v);
            if y == 6 {
                12
            } else {
                8
            }
        }
    }

    /// Execute a column-seven instruction of the low block: the
    /// accumulator rotates, DAA, CPL, SCF and CCF.
    #[verifier::spinoff_prover]
    fn exec_low_z7(&mut self, mem: &Memory, op: u8) -> (r: u8)
        requires
            mem.wf(),
            op < 0x40,
            op % 8 == 7,
        ensures
            4 <= r <= 24 && r % 4 == 0,
            r == spec_instr_cycles(*old(self), mem@, op),
            *final(self) == spec_exec_low(*old(self), mem@, op).0,
            mem@ == spec_exec_low(*old(self), mem@, op).1,
    {
        match op {
            0x07 => {
                let r = rlc8(self.register_a);
                self.register_a = r.0;
                self.store_flags(Flags { z: false, ..r.1 });
            },
            0x0f => {
                let r = rrc8(self.register_a);
                self.register_a = r.0;
                self.store_flags(Flags { z: false, ..r.1 });
            },
            0x17 => {
                let r = rl8(self.register_a, self.flag_c);
                self.register_a = r.0;
                self.store_flags(Flags { z: false, ..r.1 });
            },
            0x1f => {
                let r = rr8(self.register_a, self.flag_c);
                self.register_a = r.0;
                self.store_flags(Flags { z: false, ..r.1 });
            },
            0x27 => {
                let r = daa8(self.register_a, self.flag_n, self.flag_h, self.flag_c);
                self.register_a = r.0;
                self.store_flags(r.1);
            },
            0x2f => {
                self.register_a = 255 - self.register_a;
                self.flag_n = true;
                self.flag_h = true;
            },
            0x37 => {
                self.flag_n = false;
                self.flag_h = false;
                self.flag_c = true;
            },
            _ => {
                // CCF
                self.flag_n = false;
                self.flag_h = false;
                self.flag_c = !self.flag_c;
            },
        }
        4
    }

    /// Execute an instruction of the 0x00 to 0x3f block: 16-bit loads
    /// and arithmetic, 8-bit increments, decrements and immediate
    /// loads, indirect accumulator transfers, the accumulator rotates,
    /// DAA, CPL, SCF, CCF, relative jumps, NOP and STOP.
    fn exec_low(&mut self, mem: &mut Memory, op: u8) -> (r: u8)
        requires
            old(mem).wf(),
            op < 0x40,
        ensures
            final(mem).wf(),
            4 <= r <= 24 && r % 4 == 0,
            r == spec_instr_cycles(*old(self), old(mem)@, op),
            // The block's whole effect on the machine.
            *final(self) == spec_exec_low(*old(self), old(mem)@, op).0,
            final(mem)@ == spec_exec_low(*old(self), old(mem)@, op).1,
    {
        let z = op % 8;
        if z == 0 {
            self.exec_low_z0(mem, op)
        } else if z == 1 || z == 2 {
            self.exec_low_z12(mem, op)
        } else if z == 7 {
            self.exec_low_z7(mem, op)
        } else {
            self.exec_low_z3456(mem, op)
        }
    }

    /// Execute a column-zero or column-one instruction of the high
    /// block: conditional and plain returns, RETI, the pops, the
    /// I/O-page loads, the SP arithmetic, JP (HL) and LD SP,HL.
    #[verifier::rlimit(100)]
    #[verifier::spinoff_prover]
    fn exec_high_z01(&mut self, mem: &mut Memory, op: u8) -> (r: u8)
        requires
            old(mem).wf(),
            op >= 0xc0,
            op % 8 == 0 || op % 8 == 1,
        ensures
            final(mem).wf(),
            4 <= r <= 24 && r % 4 == 0,
            r == spec_instr_cycles(*old(self), old(mem)@, op),
            *final(self) == spec_exec_high(*old(self), old(mem)@, op).0,
            final(mem)@ == spec_exec_high(*old(self), old(mem)@, op).1,
    {
        match op {
            0xc0 | 0xc8 | 0xd0 | 0xd8 => {
                if self.cond((op - 0xc0) / 8) {
                    let v = self.pop16(mem);
                    self.register_pc = v;
                assert(*self == spec_exec_high(*old(self), old(mem)@, op).0);
                assert(mem@ == spec_exec_high(*old(self), old(mem)@, op).1);
                    20
                } else {
                assert(*self == spec_exec_high(*old(self), old(mem)@, op).0);
                assert(mem@ == spec_exec_high(*old(self), old(mem)@, op).1);
                    8
                }
            },
            0xc1 | 0xd1 | 0xe1 => {
                let v = self.pop16(mem);
                self.rp_set((op - 0xc0) / 16, v);
                assert(*self == spec_exec_high(*old(self), old(mem)@, op).0);
                assert(mem@ == spec_exec_high(*old(self), old(mem)@, op).1);
                12
            },
            0xf1 => {
                let v = self.pop16(mem);
                self.register_a = (v / 256) as u8;
                self.store_f((v % 256) as u8);
                assert(*self == spec_exec_high(*old(self), old(mem)@, op).0);
                assert(mem@ == spec_exec_high(*old(self), old(mem)@, op).1);
                12
            },
            0xc9 => {
                let v = self.pop16(mem);
                self.register_pc = v;
                assert(*self == spec_exec_high(*old(self), old(mem)@, op).0);
                assert(mem@ == spec_exec_high(*old(self), old(mem)@, op).1);
                16
            },
            0xd9 => {
                let v = self.pop16(mem);
                self.register_pc = v;
                self.interrupt_master_enable_flag = true;
                assert(*self == spec_exec_high(*old(self), old(mem)@, op).0);
                assert(mem@ == spec_exec_high(*old(self), old(mem)@, op).1);
                16
            },
            0xe0 => {
                let addr = self.get_mem_a8(mem);
                mem.set(addr, self.register_a);
                assert(*self == spec_exec_high(*old(self), old(mem)@, op).0);
                assert(mem@ == spec_exec_high(*old(self), old(mem)@, op).1);
                12
            },
            0xf0 => {
                let addr = self.get_mem_a8(mem);
                self.register_a = mem.get(addr);
                assert(*self == spec_exec_high(*old(self), old(mem)@, op).0);
                assert(mem@ == spec_exec_high(*old(self), old(mem)@, op).1);
                12
            },
            0xe8 => {
                let d = self.get_mem_u8(mem);
                let r = addsp16(self.register_sp, d);
                self.register_sp = r.0;
                self.store_flags(r.1);
                assert(*self == spec_exec_high(*old(self), old(mem)@, op).0);
                assert(mem@ == spec_exec_high(*old(self), old(mem)@, op).1);
                16
            },
            0xf8 => {
                let d = self.get_mem_u8(mem);
                let r = addsp16(self.register_sp, d);
                self.rp_set(2, r.0);
                self.store_flags(r.1);
                assert(*self == spec_exec_high(*old(self), old(mem)@, op).0);
                assert(mem@ == spec_exec_high(*old(self), old(mem)@, op).1);
                12
            },
            0xe9 => {
                self.register_pc = (self.register_h as u16) * 256 + self.register_l as u16;
                assert(*self == spec_exec_high(*old(self), old(mem)@, op).0);
                assert(mem@ == spec_exec_high(*old(self), old(mem)@, op).1);
                4
            },
            _ => {
                // LD SP,HL
                self.register_sp = (self.register_h as u16) * 256 + self.register_l as u16;
                assert(*self == spec_exec_high(*old(self), old(mem)@, op).0);
                assert(mem@ == spec_exec_high(*old(self), old(mem)@, op).1);
                8
            },
        }
    }

    /// Execute a column-two to column-five instruction of the high
    /// block: jumps, calls, pushes, the CB prefix, the accumulator
    /// transfers through (C) and absolute addresses, DI and EI.
    /// Returns None on a hole of the opcode table.
    #[verifier::rlimit(100)]
    #[verifier::spinoff_prover]
    fn exec_high_z2345(&mut self, mem: &mut Memory, op: u8) -> (r: Option<u8>)
        requires
            old(mem).wf(),
            op >= 0xc0,
            op % 8 == 2 || op % 8 == 3 || op % 8 == 4 || op % 8 == 5,
        ensures
            final(mem).wf(),
            r is Some ==> 4 <= r.unwrap() <= 24 && r.unwrap() % 4 == 0,
            r is Some ==> r.unwrap() == spec_instr_cycles(*old(self), old(mem)@, op),
            r is Some ==> *final(self) == spec_exec_high(*old(self), old(mem)@, op).0
                && final(mem)@ == spec_exec_high(*old(self), old(mem)@, op).1,
            r is None <==> !spec_valid_opcode(op),
            r is None ==> *final(self) == *old(self) && final(mem)@ == old(mem)@,
    {
        match op {
            0xc2 | 0xca | 0xd2 | 0xda => {
                let addr = self.get_mem_u16(mem);
                if self.cond((op - 0xc2) / 8) {
                    self.register_pc = addr;
                    Some(16)
                } else {
                    Some(12)
                }
            },
            0xc3 => {
                let addr = self.get_mem_u16(mem);
                self.register_pc = addr;
                Some(16)
            },
            0xc4 | 0xcc | 0xd4 | 0xdc => {
                let addr = self.get_mem_u16(mem);
                if self.cond((op - 0xc4) / 8) {
                    let pc = self.register_pc;
                    self.push16(mem, pc);
                    self.register_pc = addr;
                    Some(24)
                } else {
                    Some(12)
                }
            },
            0xcd => {
                let addr = self.get_mem_u16(mem);
                let pc = self.register_pc;
                self.push16(mem, pc);
                self.register_pc = addr;
                Some(24)
            },
            0xc5 | 0xd5 | 0xe5 => {
                let v = self.rp_get((op - 0xc0) / 16);
                self.push16(mem, v);
                Some(16)
            },
            0xf5 => {
                let v = (self.register_a as u16) * 256 + pack_flags(
                    self.flag_z,
                    self.flag_n,
                    self.flag_h,
                    self.flag_c,
                ) as u16;
                self.push16(mem, v);
                Some(16)
            },
            0xcb => Some(self.exec_cb(mem)),
            0xe2 => {
                mem.set(0xff00 + self.register_c as u16, self.register_a);
                Some(8)
            },
            0xf2 => {
                self.register_a = mem.get(0xff00 + self.register_c as u16);
                Some(8)
            },
            0xea => {
                let addr = self.get_mem_u16(mem);
                mem.set(addr, self.register_a);
                Some(16)
            },
            0xfa => {
                let addr = self.get_mem_u16(mem);
                self.register_a = mem.get(addr);
                Some(16)
            },
            0xf3 => {
                self.interrupt_master_enable_flag = false;
                self.ime_pending = false;
                Some(4)
            },
            0xfb => {
                self.ime_pending = true;
                Some(4)
            },
            _ => None,
        }
    }

    /// Execute a column-six or column-seven instruction of the high
    /// block: the immediate ALU forms and the restarts.
    #[verifier::rlimit(100)]
    #[verifier::spinoff_prover]
    fn exec_high_z67(&mut self, mem: &mut Memory, op: u8) -> (r: u8)
        requires
            old(mem).wf(),
            op >= 0xc0,
            op % 8 == 6 || op % 8 == 7,
        ensures
            final(mem).wf(),
            4 <= r <= 24 && r % 4 == 0,
            r == spec_instr_cycles(*old(self), old(mem)@, op),
            *final(self) == spec_exec_high(*old(self), old(mem)@, op).0,
            final(mem)@ == spec_exec_high(*old(self), old(mem)@, op).1,
    {
        if op % 8 == 6 {
            let v = self.get_mem_u8(mem);
            self.alu_dispatch((op / 8) % 8, v);
            8
        } else {
            let pc = self.register_pc;
            self.push16(mem, pc);
            self.register_pc = (((op - 0xc0) / 8) * 8) as u16;
            16
        }
    }

    /// Execute an instruction of the 0xc0 to 0xff block (and HALT):
    /// stack operations, calls, returns, jumps, restarts, immediate
    /// ALU forms, the I/O-page loads, the SP arithmetic and the
    /// interrupt-enable instructions. Returns None on a hole of the
    /// opcode table.
    fn exec_high(&mut self, mem: &mut Memory, op: u8) -> (r: Option<u8>)
        requires
            old(mem).wf(),
            op >= 0xc0 || op == 0x76,
        ensures
            final(mem).wf(),
            r is Some ==> 4 <= r.unwrap() <= 24 && r.unwrap() % 4 == 0,
            r is Some ==> r.unwrap() == spec_instr_cycles(*old(self), old(mem)@, op),
            r is None <==> !spec_valid_opcode(op),
            r is None ==> *final(self) == *old(self) && final(mem)@ == old(mem)@,
            // The block's whole effect on the machine.
            r is Some ==> *final(self) == spec_exec_high(*old(self), old(mem)@, op).0
                && final(mem)@ == spec_exec_high(*old(self), old(mem)@, op).1,
    {
        if op == 0x76 {
            self.halted = true;
            Some(4)
        } else {
            let z = op % 8;
            if z == 0 || z == 1 {
                Some(self.exec_high_z01(mem, op))
            } else if z == 6 || z == 7 {
                Some(self.exec_high_z67(mem, op))
            } else {
                self.exec_high_z2345(mem, op)
            }
        }
    }

    /// Execute the instruction a fetched opcode names. Returns its
    /// T-cycle cost, or None for a hole of the opcode table.
    fn execute(&mut self, mem: &mut Memory, op: u8) -> (r: Option<u8>)
        requires
            old(mem).wf(),
        ensures
            final(mem).wf(),
            r is Some ==> 4 <= r.unwrap() <= 24 && r.unwrap() % 4 == 0,
            r is Some ==> r.unwrap() == spec_instr_cycles(*old(self), old(mem)@, op),
            r is None <==> !spec_valid_opcode(op),
            r is None ==> *final(self) == *old(self) && final(mem)@ == old(mem)@
                && spec_execute(*old(self), old(mem)@, op) == (*old(self), old(mem)@),
            // The instruction's whole effect on the machine.
            r is Some ==> *final(self) == spec_execute(*old(self), old(mem)@, op).0
                && final(mem)@ == spec_execute(*old(self), old(mem)@, op).1,
    {
        proof {
            reveal(spec_execute);
        }
        if 0x40 <= op && op < 0x80 && op != 0x76 {
            // LD r, r'
            let src = op % 8;
            let dst = (op / 8) % 8;
            let v = self.reg8_get(mem, src);
            self.reg8_set(mem, dst, v);
            Some(
                if src == 6 || dst == 6 {
                    8
                } else {
                    4
                },
            )
        } else if 0x80 <= op && op < 0xc0 {
            // The register ALU block.
            let src = op % 8;
            let v = self.reg8_get(mem, src);
            self.alu_dispatch((op / 8) % 8, v);
            Some(
                if src == 6 {
                    8
                } else {
                    4
                },
            )
        } else if op < 0x40 {
            Some(self.exec_low(mem, op))
        } else {
            self.exec_high(mem, op)
        }
    }

    /// Advance the CPU by one step and return the elapsed T-cycles.
    ///
    /// If the master enable is set and an enabled interrupt is pending,
    /// the step dispatches it instead of executing an instruction:
    /// 20 T-cycles. A CPU parked behind HALT burns 4 T-cycles per step
    /// and wakes when any enabled interrupt becomes pending, serviced
    /// or not. Otherwise one instruction is fetched at PC and executed;
    /// a hole of the opcode table is a fatal decode failure, returned
    /// as a register dump with the bus left as the fetch found it.
    ///
    /// An EI takes effect only after the following instruction has
    /// begun: the dispatch check of the next step still sees the old
    /// master enable, so the instruction after EI cannot be interrupted.
    #[verifier::rlimit(100)]
    #[verifier::spinoff_prover]
    pub fn tick(&mut self, mem: &mut Memory) -> (r: Result<u8, Fault>)
        requires
            old(mem).wf(),
        ensures
            final(mem).wf(),
            r is Ok ==> 4 <= r.unwrap() <= 24 && r.unwrap() % 4 == 0,
            // The whole step, as one function of the machine.
            *final(self) == spec_cpu_tick(*old(self), old(mem)@).0,
            final(mem)@ == spec_cpu_tick(*old(self), old(mem)@).1,
            r is Ok ==> r.unwrap() == spec_cpu_tick(*old(self), old(mem)@).2,
            // Whatever executed, the flag register's low nibble is zero.
            final(self).f_value() % 16 == 0,
            // An interrupt dispatch consumes the whole step.
            old(self).spec_ime() && spec_pending(old(mem)@) ==> ({
                let bit = spec_lowest_pending(old(mem)@);
                &&& r == Result::<u8, Fault>::Ok(20u8)
                &&& *final(self) == (CPU {
                    register_pc: spec_interrupt_vector(bit),
                    register_sp: old(self).register_sp.wrapping_sub(2),
                    interrupt_master_enable_flag: false,
                    halted: false,
                    ..*old(self)
                })
                &&& final(mem)@ == spec_push16(
                    spec_write(
                        old(mem)@,
                        INTERRUPT_FLAG,
                        spec_res8(bit, spec_read(old(mem)@, INTERRUPT_FLAG)),
                    ),
                    old(self).register_sp,
                    old(self).register_pc,
                )
            }),
            // A halted CPU waits, and wakes on a pending interrupt.
            !(old(self).spec_ime() && spec_pending(old(mem)@)) && old(self).spec_halted() ==> ({
                &&& r == Result::<u8, Fault>::Ok(4u8)
                &&& final(mem)@ == old(mem)@
                &&& *final(self) == (CPU {
                    halted: !spec_pending(old(mem)@),
                    interrupt_master_enable_flag: old(self).interrupt_master_enable_flag
                        || old(self).ime_pending,
                    ime_pending: false,
                    ..*old(self)
                })
            }),
            // An executed instruction transforms the machine exactly as
            // the instruction-set interpreter says, after the one-step
            // delay of a pending EI has resolved.
            !(old(self).spec_ime() && spec_pending(old(mem)@)) && !old(self).spec_halted()
                && spec_valid_opcode(spec_read(old(mem)@, old(self).register_pc)) ==> ({
                let c1 = CPU {
                    register_pc: old(self).register_pc.wrapping_add(1),
                    interrupt_master_enable_flag: old(self).interrupt_master_enable_flag
                        || old(self).ime_pending,
                    ime_pending: false,
                    ..*old(self)
                };
                let op = spec_read(old(mem)@, old(self).register_pc);
                &&& *final(self) == spec_execute(c1, old(mem)@, op).0
                &&& final(mem)@ == spec_execute(c1, old(mem)@, op).1
            }),
            // An executed instruction costs what the canonical table
            // says of its opcode, conditions included.
            !(old(self).spec_ime() && spec_pending(old(mem)@)) && !old(self).spec_halted()
                && spec_valid_opcode(spec_read(old(mem)@, old(self).register_pc)) ==> r
                == Result::<u8, Fault>::Ok(
                spec_instr_cycles(
                    (CPU { register_pc: old(self).register_pc.wrapping_add(1), ..*old(self) }),
                    old(mem)@,
                    spec_read(old(mem)@, old(self).register_pc),
                ),
            ),
            // The step fails exactly on a hole of the opcode table.
            r is Err <==> (!(old(self).spec_ime() && spec_pending(old(mem)@))
                && !old(self).spec_halted() && !spec_valid_opcode(
                spec_read(old(mem)@, old(self).register_pc),
            )),
            r matches Err(ft) ==> ft.opcode == spec_read(old(mem)@, old(self).register_pc)
                && ft.pc == old(self).register_pc && final(mem)@ == old(mem)@,
    {
        if self.interrupt_master_enable_flag {
            let dispatched = self.check_interrupt(mem);
            if dispatched {
                return Ok(20);
            }
        }
        if self.ime_pending {
            self.interrupt_master_enable_flag = true;
            self.ime_pending = false;
        }
        if self.halted {
            if interrupts_pending(mem) {
                self.halted = false;
            }
            return Ok(4);
        }
        let pc0 = self.register_pc;
        let op = self.get_mem_u8(mem);
        match self.execute(mem, op) {
            Some(cycles) => Ok(cycles),
            None => Err(
                Fault {
                    opcode: op,
                    pc: pc0,
                    a: self.register_a,
                    f: pack_flags(self.flag_z, self.flag_n, self.flag_h, self.flag_c),
                    b: self.register_b,
                    c: self.register_c,
                    d: self.register_d,
                    e: self.register_e,
                    h: self.register_h,
                    l: self.register_l,
                    sp: self.register_sp,
                },
            ),
        }
    }
}

/// Whether any enabled interrupt is pending, as the HALT wake test
/// reads it.
pub fn interrupts_pending(mem: &Memory) -> (r: bool)
    requires
        mem.wf(),
    ensures
        r == spec_pending(mem@),
{
    let iflag = mem.get(INTERRUPT_FLAG);
    let ienable = mem.get(INTERRUPT_ENABLE);
    (bit_is_set(iflag, 0) && bit_is_set(ienable, 0)) || (bit_is_set(iflag, 1) && bit_is_set(
        ienable,
        1,
    )) || (bit_is_set(iflag, 2) && bit_is_set(ienable, 2)) || (bit_is_set(iflag, 3) && bit_is_set(
        ienable,
        3,
    )) || (bit_is_set(iflag, 4) && bit_is_set(ienable, 4))
}

/// The machine after an 8-bit ALU operation against A, selected by a
/// decode index: ADD, ADC, SUB, SBC, AND, XOR, OR, CP.
pub open spec fn spec_alu(c: CPU, fam: u8, v: u8) -> CPU {
    if fam == 0 {
        let r = spec_add8(c.register_a, v);
        (CPU { register_a: r.0, ..c }).spec_with_flags(r.1)
    } else if fam == 1 {
        let r = spec_adc8(c.register_a, v, c.flag_c);
        (CPU { register_a: r.0, ..c }).spec_with_flags(r.1)
    } else if fam == 2 {
        let r = spec_sub8(c.register_a, v);
        (CPU { register_a: r.0, ..c }).spec_with_flags(r.1)
    } else if fam == 3 {
        let r = spec_sbc8(c.register_a, v, c.flag_c);
        (CPU { register_a: r.0, ..c }).spec_with_flags(r.1)
    } else if fam == 4 {
        let r = spec_and8(c.register_a, v);
        (CPU { register_a: r.0, ..c }).spec_with_flags(r.1)
    } else if fam == 5 {
        let r = spec_xor8(c.register_a, v);
        (CPU { register_a: r.0, ..c }).spec_with_flags(r.1)
    } else if fam == 6 {
        let r = spec_or8(c.register_a, v);
        (CPU { register_a: r.0, ..c }).spec_with_flags(r.1)
    } else {
        c.spec_with_flags(spec_cp8(c.register_a, v))
    }
}

/// The 16-bit pair a decode index selects: BC, DE, HL, SP.
pub open spec fn spec_rp_get(c: CPU, p: u8) -> u16 {
    if p == 0 {
        c.bc()
    } else if p == 1 {
        c.de()
    } else if p == 2 {
        c.hl()
    } else {
        c.register_sp
    }
}

/// The CPU after a store to the 16-bit pair a decode index selects.
pub open spec fn spec_rp_set(c: CPU, p: u8, v: u16) -> CPU {
    if p == 0 {
        CPU { register_b: (v / 256) as u8, register_c: (v % 256) as u8, ..c }
    } else if p == 1 {
        CPU { register_d: (v / 256) as u8, register_e: (v % 256) as u8, ..c }
    } else if p == 2 {
        CPU { register_h: (v / 256) as u8, register_l: (v % 256) as u8, ..c }
    } else {
        CPU { register_sp: v, ..c }
    }
}

/// The target of a relative jump: PC plus the sign-extended offset,
/// modulo 2^16.
pub open spec fn spec_jr_target(pc: u16, d: u8) -> u16 {
    crate::alu::spec_wrap16(pc + crate::alu::spec_signed(d))
}

/// The canonical T-cycle cost of the instruction `op` about to
/// execute: `c` is the CPU just past the opcode fetch (PC at the first
/// operand byte), so conditional costs read the flags and the
/// CB-prefixed cost reads its second byte from the bus. The cost of a
/// hole of the table is left at zero; no instruction has it.
pub open spec fn spec_instr_cycles(c: CPU, b: BusView, op: u8) -> u8 {
    if 0x40 <= op && op < 0x80 && op != 0x76 {
        if op % 8 == 6 || (op / 8) % 8 == 6 {
            8
        } else {
            4
        }
    } else if 0x80 <= op && op < 0xc0 {
        if op % 8 == 6 {
            8
        } else {
            4
        }
    } else if op < 0x40 {
        if op % 8 == 0 {
            if op == 0x08 {
                20
            } else if op == 0x18 {
                12
            } else if op == 0x20 || op == 0x28 || op == 0x30 || op == 0x38 {
                if spec_cond(c, ((op - 0x20) / 8) as u8) {
                    12
                } else {
                    8
                }
            } else {
                4
            }
        } else if op % 8 == 1 {
            if op % 16 == 1 {
                12
            } else {
                8
            }
        } else if op % 8 == 2 || op % 8 == 3 {
            8
        } else if op % 8 == 4 || op % 8 == 5 {
            if (op / 8) % 8 == 6 {
                12
            } else {
                4
            }
        } else if op % 8 == 6 {
            if (op / 8) % 8 == 6 {
                12
            } else {
                8
            }
        } else {
            4
        }
    } else if op == 0x76 {
        4
    } else if op == 0xc0 || op == 0xc8 || op == 0xd0 || op == 0xd8 {
        if spec_cond(c, ((op - 0xc0) / 8) as u8) {
            20
        } else {
            8
        }
    } else if op == 0xc1 || op == 0xd1 || op == 0xe1 || op == 0xf1 {
        12
    } else if op == 0xc2 || op == 0xca || op == 0xd2 || op == 0xda {
        if spec_cond(c, ((op - 0xc2) / 8) as u8) {
            16
        } else {
            12
        }
    } else if op == 0xc3 {
        16
    } else if op == 0xc4 || op == 0xcc || op == 0xd4 || op == 0xdc {
        if spec_cond(c, ((op - 0xc4) / 8) as u8) {
            24
        } else {
            12
        }
    } else if op == 0xcd {
        24
    } else if op == 0xc5 || op == 0xd5 || op == 0xe5 || op == 0xf5 {
        16
    } else if op % 8 == 6 {
        8
    } else if op % 8 == 7 {
        16
    } else if op == 0xc9 || op == 0xd9 {
        16
    } else if op == 0xcb {
        let cb = spec_read(b, c.register_pc);
        if cb % 8 == 6 {
            if cb / 64 == 1 {
                12
            } else {
                16
            }
        } else {
            8
        }
    } else if op == 0xe0 || op == 0xf0 {
        12
    } else if op == 0xe2 || op == 0xf2 {
        8
    } else if op == 0xe8 {
        16
    } else if op == 0xe9 {
        4
    } else if op == 0xea || op == 0xfa {
        16
    } else if op == 0xf3 || op == 0xfb {
        4
    } else if op == 0xf8 {
        12
    } else if op == 0xf9 {
        8
    } else {
        0
    }
}


/// The machine after one CB-prefixed instruction, the prefix already
/// fetched: `cb` selects the rotate and shift family, BIT, RES or SET,
/// and the operand by its low three bits.
pub open spec fn spec_cb_op(c: CPU, b: BusView, cb: u8) -> (CPU, BusView) {
    let c1 = CPU { register_pc: c.register_pc.wrapping_add(1), ..c };
    let idx = (cb % 8) as u8;
    let sub = ((cb / 8) % 8) as u8;
    let v = spec_reg8_get(c1, b, idx);
    if cb < 0x40 {
        let rf = if sub == 0 {
            spec_rlc8(v)
        } else if sub == 1 {
            spec_rrc8(v)
        } else if sub == 2 {
            spec_rl8(v, c1.flag_c)
        } else if sub == 3 {
            spec_rr8(v, c1.flag_c)
        } else if sub == 4 {
            spec_sla8(v)
        } else if sub == 5 {
            spec_sra8(v)
        } else if sub == 6 {
            spec_swap8(v)
        } else {
            spec_srl8(v)
        };
        let after = spec_reg8_set(c1, b, idx, rf.0);
        (after.0.spec_with_flags(rf.1), after.1)
    } else if cb < 0x80 {
        (c1.spec_with_flags(spec_bit8(sub, v, c1.flag_c)), b)
    } else if cb < 0xc0 {
        let after = spec_reg8_set(c1, b, idx, spec_res8(sub, v));
        (after.0, after.1)
    } else {
        let after = spec_reg8_set(c1, b, idx, spec_set8(sub, v));
        (after.0, after.1)
    }
}


/// The machine after one instruction of the 0x00 to 0x3f block, the
/// opcode already fetched: PC stands at the first operand byte.
pub open spec fn spec_exec_low(c: CPU, b: BusView, op: u8) -> (CPU, BusView) {
    let p = ((op / 16) % 4) as u8;
    let y = ((op / 8) % 8) as u8;
    if op == 0x00 {
        (c, b)
    } else if op == 0x10 {
        // STOP skips its padding byte.
        (CPU { register_pc: c.register_pc.wrapping_add(1), ..c }, b)
    } else if op == 0x08 {
        let addr = spec_imm16(b, c.register_pc);
        let c1 = CPU { register_pc: c.register_pc.wrapping_add(2), ..c };
        let b1 = spec_write(b, addr, (c.register_sp % 256) as u8);
        (c1, spec_write(b1, addr.wrapping_add(1), (c.register_sp / 256) as u8))
    } else if op % 8 == 1 && op % 16 == 1 {
        let v = spec_imm16(b, c.register_pc);
        (spec_rp_set(CPU { register_pc: c.register_pc.wrapping_add(2), ..c }, p, v), b)
    } else if op % 8 == 1 {
        let rf = spec_add16(c.hl(), spec_rp_get(c, p), c.flag_z);
        (spec_rp_set(c, 2, rf.0).spec_with_flags(rf.1), b)
    } else if op == 0x02 || op == 0x12 {
        (c, spec_write(b, spec_rp_get(c, p), c.register_a))
    } else if op == 0x22 {
        (spec_rp_set(c, 2, c.hl().wrapping_add(1)), spec_write(b, c.hl(), c.register_a))
    } else if op == 0x32 {
        (spec_rp_set(c, 2, c.hl().wrapping_sub(1)), spec_write(b, c.hl(), c.register_a))
    } else if op == 0x0a || op == 0x1a {
        (CPU { register_a: spec_read(b, spec_rp_get(c, p)), ..c }, b)
    } else if op == 0x2a {
        (spec_rp_set(CPU { register_a: spec_read(b, c.hl()), ..c }, 2, c.hl().wrapping_add(1)), b)
    } else if op == 0x3a {
        (spec_rp_set(CPU { register_a: spec_read(b, c.hl()), ..c }, 2, c.hl().wrapping_sub(1)), b)
    } else if op % 8 == 3 && op % 16 == 3 {
        (spec_rp_set(c, p, spec_rp_get(c, p).wrapping_add(1)), b)
    } else if op % 8 == 3 {
        (spec_rp_set(c, p, spec_rp_get(c, p).wrapping_sub(1)), b)
    } else if op % 8 == 4 {
        let rf = spec_inc8(spec_reg8_get(c, b, y), c.flag_c);
        let after = spec_reg8_set(c, b, y, rf.0);
        (after.0.spec_with_flags(rf.1), after.1)
    } else if op % 8 == 5 {
        let rf = spec_dec8(spec_reg8_get(c, b, y), c.flag_c);
        let after = spec_reg8_set(c, b, y, rf.0);
        (after.0.spec_with_flags(rf.1), after.1)
    } else if op % 8 == 6 {
        let v = spec_read(b, c.register_pc);
        let c1 = CPU { register_pc: c.register_pc.wrapping_add(1), ..c };
        let after = spec_reg8_set(c1, b, y, v);
        (after.0, after.1)
    } else if op == 0x07 {
        let rf = spec_rlc8(c.register_a);
        ((CPU { register_a: rf.0, ..c }).spec_with_flags(Flags { z: false, ..rf.1 }), b)
    } else if op == 0x0f {
        let rf = spec_rrc8(c.register_a);
        ((CPU { register_a: rf.0, ..c }).spec_with_flags(Flags { z: false, ..rf.1 }), b)
    } else if op == 0x17 {
        let rf = spec_rl8(c.register_a, c.flag_c);
        ((CPU { register_a: rf.0, ..c }).spec_with_flags(Flags { z: false, ..rf.1 }), b)
    } else if op == 0x1f {
        let rf = spec_rr8(c.register_a, c.flag_c);
        ((CPU { register_a: rf.0, ..c }).spec_with_flags(Flags { z: false, ..rf.1 }), b)
    } else if op == 0x27 {
        let rf = spec_daa8(c.register_a, c.flag_n, c.flag_h, c.flag_c);
        ((CPU { register_a: rf.0, ..c }).spec_with_flags(rf.1), b)
    } else if op == 0x2f {
        (CPU { register_a: (255 - c.register_a) as u8, flag_n: true, flag_h: true, ..c }, b)
    } else if op == 0x37 {
        (CPU { flag_n: false, flag_h: false, flag_c: true, ..c }, b)
    } else if op == 0x3f {
        (CPU { flag_n: false, flag_h: false, flag_c: !c.flag_c, ..c }, b)
    } else if op == 0x18 {
        (
            CPU {
                register_pc: spec_jr_target(
                    c.register_pc.wrapping_add(1),
                    spec_read(b, c.register_pc),
                ),
                ..c
            },
            b,
        )
    } else {
        if spec_cond(c, ((op - 0x20) / 8) as u8) {
            (
                CPU {
                    register_pc: spec_jr_target(
                        c.register_pc.wrapping_add(1),
                        spec_read(b, c.register_pc),
                    ),
                    ..c
                },
                b,
            )
        } else {
            (CPU { register_pc: c.register_pc.wrapping_add(1), ..c }, b)
        }
    }
}


/// The machine after one instruction of the 0xc0 to 0xff block or a
/// HALT, the opcode already fetched: PC stands at the first operand
/// byte. A hole of the table leaves the machine unchanged.
pub open spec fn spec_exec_high(c: CPU, b: BusView, op: u8) -> (CPU, BusView) {
    if op == 0x76 {
        (CPU { halted: true, ..c }, b)
    } else if op == 0xc0 || op == 0xc8 || op == 0xd0 || op == 0xd8 {
        if spec_cond(c, ((op - 0xc0) / 8) as u8) {
            (
                CPU {
                    register_pc: spec_pop16_val(b, c.register_sp),
                    register_sp: c.register_sp.wrapping_add(2),
                    ..c
                },
                b,
            )
        } else {
            (c, b)
        }
    } else if op == 0xc1 || op == 0xd1 || op == 0xe1 {
        (
            spec_rp_set(
                CPU { register_sp: c.register_sp.wrapping_add(2), ..c },
                ((op - 0xc0) / 16) as u8,
                spec_pop16_val(b, c.register_sp),
            ),
            b,
        )
    } else if op == 0xf1 {
        (spec_pop_af(c, b), b)
    } else if op == 0xc2 || op == 0xca || op == 0xd2 || op == 0xda {
        if spec_cond(c, ((op - 0xc2) / 8) as u8) {
            (CPU { register_pc: spec_imm16(b, c.register_pc), ..c }, b)
        } else {
            (CPU { register_pc: c.register_pc.wrapping_add(2), ..c }, b)
        }
    } else if op == 0xc3 {
        (CPU { register_pc: spec_imm16(b, c.register_pc), ..c }, b)
    } else if op == 0xc4 || op == 0xcc || op == 0xd4 || op == 0xdc {
        if spec_cond(c, ((op - 0xc4) / 8) as u8) {
            (
                CPU {
                    register_pc: spec_imm16(b, c.register_pc),
                    register_sp: c.register_sp.wrapping_sub(2),
                    ..c
                },
                spec_push16(b, c.register_sp, c.register_pc.wrapping_add(2)),
            )
        } else {
            (CPU { register_pc: c.register_pc.wrapping_add(2), ..c }, b)
        }
    } else if op == 0xcd {
        (
            CPU {
                register_pc: spec_imm16(b, c.register_pc),
                register_sp: c.register_sp.wrapping_sub(2),
                ..c
            },
            spec_push16(b, c.register_sp, c.register_pc.wrapping_add(2)),
        )
    } else if op == 0xc5 || op == 0xd5 || op == 0xe5 {
        (
            CPU { register_sp: c.register_sp.wrapping_sub(2), ..c },
            spec_push16(b, c.register_sp, spec_rp_get(c, ((op - 0xc0) / 16) as u8)),
        )
    } else if op == 0xf5 {
        (
            CPU { register_sp: c.register_sp.wrapping_sub(2), ..c },
            spec_push16(b, c.register_sp, c.af()),
        )
    } else if op % 8 == 6 {
        (
            spec_alu(
                CPU { register_pc: c.register_pc.wrapping_add(1), ..c },
                ((op / 8) % 8) as u8,
                spec_read(b, c.register_pc),
            ),
            b,
        )
    } else if op % 8 == 7 {
        (
            CPU {
                register_pc: (((op - 0xc0) / 8) * 8) as u16,
                register_sp: c.register_sp.wrapping_sub(2),
                ..c
            },
            spec_push16(b, c.register_sp, c.register_pc),
        )
    } else if op == 0xc9 {
        (
            CPU {
                register_pc: spec_pop16_val(b, c.register_sp),
                register_sp: c.register_sp.wrapping_add(2),
                ..c
            },
            b,
        )
    } else if op == 0xd9 {
        (
            CPU {
                register_pc: spec_pop16_val(b, c.register_sp),
                register_sp: c.register_sp.wrapping_add(2),
                interrupt_master_enable_flag: true,
                ..c
            },
            b,
        )
    } else if op == 0xcb {
        spec_cb_op(c, b, spec_read(b, c.register_pc))
    } else if op == 0xe0 {
        (
            CPU { register_pc: c.register_pc.wrapping_add(1), ..c },
            spec_write(b, (0xff00 + spec_read(b, c.register_pc)) as u16, c.register_a),
        )
    } else if op == 0xe2 {
        (c, spec_write(b, (0xff00 + c.register_c) as u16, c.register_a))
    } else if op == 0xe8 {
        let rf = spec_addsp16(c.register_sp, spec_read(b, c.register_pc));
        (
            (CPU {
                register_sp: rf.0,
                register_pc: c.register_pc.wrapping_add(1),
                ..c
            }).spec_with_flags(rf.1),
            b,
        )
    } else if op == 0xe9 {
        (CPU { register_pc: c.hl(), ..c }, b)
    } else if op == 0xea {
        (
            CPU { register_pc: c.register_pc.wrapping_add(2), ..c },
            spec_write(b, spec_imm16(b, c.register_pc), c.register_a),
        )
    } else if op == 0xf0 {
        (
            CPU {
                register_a: spec_read(b, (0xff00 + spec_read(b, c.register_pc)) as u16),
                register_pc: c.register_pc.wrapping_add(1),
                ..c
            },
            b,
        )
    } else if op == 0xf2 {
        (CPU { register_a: spec_read(b, (0xff00 + c.register_c) as u16), ..c }, b)
    } else if op == 0xf3 {
        (CPU { interrupt_master_enable_flag: false, ime_pending: false, ..c }, b)
    } else if op == 0xf8 {
        let rf = spec_addsp16(c.register_sp, spec_read(b, c.register_pc));
        (
            spec_rp_set(
                CPU { register_pc: c.register_pc.wrapping_add(1), ..c },
                2,
                rf.0,
            ).spec_with_flags(rf.1),
            b,
        )
    } else if op == 0xf9 {
        (CPU { register_sp: c.hl(), ..c }, b)
    } else if op == 0xfa {
        (
            CPU {
                register_a: spec_read(b, spec_imm16(b, c.register_pc)),
                register_pc: c.register_pc.wrapping_add(2),
                ..c
            },
            b,
        )
    } else if op == 0xfb {
        (CPU { ime_pending: true, ..c }, b)
    } else {
        (c, b)
    }
}


/// The machine after executing instruction `op`, fetched with PC now
/// at its first operand byte: the whole instruction set in one
/// function, composed from the block interpreters. Opaque: callers
/// reason about it by name; `reveal` opens the definition.
#[verifier::opaque]
pub open spec fn spec_execute(c: CPU, b: BusView, op: u8) -> (CPU, BusView) {
    if 0x40 <= op && op < 0x80 && op != 0x76 {
        let v = spec_reg8_get(c, b, (op % 8) as u8);
        spec_reg8_set(c, b, ((op / 8) % 8) as u8, v)
    } else if 0x80 <= op && op < 0xc0 {
        (spec_alu(c, ((op / 8) % 8) as u8, spec_reg8_get(c, b, (op % 8) as u8)), b)
    } else if op < 0x40 {
        spec_exec_low(c, b, op)
    } else {
        spec_exec_high(c, b, op)
    }
}


/// One whole CPU step as a function of the machine: the dispatch of a
/// pending enabled interrupt, the waiting HALT, or one executed
/// instruction (a hole of the opcode table leaves the machine at the
/// fetch, which the step reports as a fault). The third component is
/// the step's T-cycle cost.
pub open spec fn spec_cpu_tick(c: CPU, b: BusView) -> (CPU, BusView, u8) {
    if c.spec_ime() && spec_pending(b) {
        let bit = spec_lowest_pending(b);
        (
            CPU {
                register_pc: spec_interrupt_vector(bit),
                register_sp: c.register_sp.wrapping_sub(2),
                interrupt_master_enable_flag: false,
                halted: false,
                ..c
            },
            spec_push16(
                spec_write(b, INTERRUPT_FLAG, spec_res8(bit, spec_read(b, INTERRUPT_FLAG))),
                c.register_sp,
                c.register_pc,
            ),
            20,
        )
    } else if c.spec_halted() {
        (
            CPU {
                halted: !spec_pending(b),
                interrupt_master_enable_flag: c.interrupt_master_enable_flag || c.ime_pending,
                ime_pending: false,
                ..c
            },
            b,
            4,
        )
    } else {
        let op = spec_read(b, c.register_pc);
        let c1 = CPU {
            register_pc: c.register_pc.wrapping_add(1),
            interrupt_master_enable_flag: c.interrupt_master_enable_flag || c.ime_pending,
            ime_pending: false,
            ..c
        };
        let r = spec_execute(c1, b, op);
        (r.0, r.1, spec_instr_cycles(c1, b, op))
    }
}

/// Whether a byte is a defined opcode of the main table. The eleven
/// holes of the table have no instruction; fetching one is a fatal
/// decode failure.
pub open spec fn spec_valid_opcode(op: u8) -> bool {
    !(op == 0xd3 || op == 0xdb || op == 0xdd || op == 0xe3 || op == 0xe4 || op == 0xeb
        || op == 0xec || op == 0xed || op == 0xf4 || op == 0xfc || op == 0xfd)
}

/// The 8-bit operand a decode index selects: B, C, D, E, H, L, the
/// byte at (HL), A — the order of the instruction encoding.
pub open spec fn spec_reg8_get(c: CPU, b: BusView, idx: u8) -> u8 {
    if idx == 0 {
        c.register_b
    } else if idx == 1 {
        c.register_c
    } else if idx == 2 {
        c.register_d
    } else if idx == 3 {
        c.register_e
    } else if idx == 4 {
        c.register_h
    } else if idx == 5 {
        c.register_l
    } else if idx == 6 {
        spec_read(b, c.hl())
    } else {
        c.register_a
    }
}

/// The machine after a store to the operand a decode index selects:
/// index 6 writes through HL to the bus, all others to a register.
pub open spec fn spec_reg8_set(c: CPU, b: BusView, idx: u8, v: u8) -> (CPU, BusView) {
    if idx == 0 {
        (CPU { register_b: v, ..c }, b)
    } else if idx == 1 {
        (CPU { register_c: v, ..c }, b)
    } else if idx == 2 {
        (CPU { register_d: v, ..c }, b)
    } else if idx == 3 {
        (CPU { register_e: v, ..c }, b)
    } else if idx == 4 {
        (CPU { register_h: v, ..c }, b)
    } else if idx == 5 {
        (CPU { register_l: v, ..c }, b)
    } else if idx == 6 {
        (c, spec_write(b, c.hl(), v))
    } else {
        (CPU { register_a: v, ..c }, b)
    }
}

/// The branch condition a decode index selects: NZ, Z, NC, C.
pub open spec fn spec_cond(c: CPU, idx: u8) -> bool {
    if idx == 0 {
        !c.flag_z
    } else if idx == 1 {
        c.flag_z
    } else if idx == 2 {
        !c.flag_c
    } else {
        c.flag_c
    }
}

/// A little-endian 16-bit immediate read at `pc`.
pub open spec fn spec_imm16(b: BusView, pc: u16) -> u16 {
    (spec_read(b, pc) + spec_read(b, pc.wrapping_add(1)) * 256) as u16
}

/// The bus after a 16-bit push at `sp`: high byte at SP-1, low at SP-2.
pub open spec fn spec_push16(b: BusView, sp: u16, v: u16) -> BusView {
    spec_write(
        spec_write(b, sp.wrapping_sub(1), (v / 256) as u8),
        sp.wrapping_sub(2),
        (v % 256) as u8,
    )
}

/// The 16-bit value a pop at `sp` loads: low byte at SP, high at SP+1.
pub open spec fn spec_pop16_val(b: BusView, sp: u16) -> u16 {
    (spec_read(b, sp) + spec_read(b, sp.wrapping_add(1)) * 256) as u16
}

/// The CPU after a POP AF: A from the high byte, the flags from the
/// upper nibble of the low byte — its low nibble cannot be set.
pub open spec fn spec_pop_af(c: CPU, b: BusView) -> CPU {
    let v = spec_pop16_val(b, c.register_sp);
    (CPU {
        register_a: (v / 256) as u8,
        register_sp: c.register_sp.wrapping_add(2),
        ..c
    }).spec_with_f((v % 256) as u8)
}

/// Whether interrupt `n` is both raised and enabled.
pub open spec fn spec_pending_bit(b: BusView, n: u8) -> bool {
    spec_bit_is_set(spec_read(b, INTERRUPT_FLAG), n) && spec_bit_is_set(
        spec_read(b, INTERRUPT_ENABLE),
        n,
    )
}

/// Whether any of the five interrupts is pending and enabled.
pub open spec fn spec_pending(b: BusView) -> bool {
    ||| spec_pending_bit(b, 0)
    ||| spec_pending_bit(b, 1)
    ||| spec_pending_bit(b, 2)
    ||| spec_pending_bit(b, 3)
    ||| spec_pending_bit(b, 4)
}

/// The lowest-numbered pending-and-enabled interrupt: the priority
/// order VBlank, LCD status, timer, serial, joypad.
pub open spec fn spec_lowest_pending(b: BusView) -> u8 {
    if spec_pending_bit(b, 0) {
        0
    } else if spec_pending_bit(b, 1) {
        1
    } else if spec_pending_bit(b, 2) {
        2
    } else if spec_pending_bit(b, 3) {
        3
    } else {
        4
    }
}


/// Law: an unconditional relative jump back onto itself is an
/// observable infinite loop: with the master enable clear and the CPU
/// awake, each step leaves PC on the branch, costs the taken jump's
/// 12 T-cycles and leaves the bus untouched — so PC is unchanged
/// across two consecutive steps.
pub proof fn lemma_jr_minus_two_loops(c: CPU, b: BusView)
    requires
        bus_wf(b),
        !c.interrupt_master_enable_flag,
        !c.ime_pending,
        !c.halted,
        spec_read(b, c.register_pc) == 0x18,
        spec_read(b, c.register_pc.wrapping_add(1)) == 0xfe,
    ensures
        ({
            let s1 = spec_cpu_tick(c, b);
            let s2 = spec_cpu_tick(s1.0, s1.1);
            &&& s1.0.register_pc == c.register_pc
            &&& s1.1 == b
            &&& s1.2 == 12
            &&& s2.0.register_pc == c.register_pc
            &&& s2.1 == b
            &&& s2.2 == 12
        }),
{
    reveal(spec_execute);
    let c1 = CPU { register_pc: c.register_pc.wrapping_add(1), ..c };
    assert(spec_jr_target(c1.register_pc.wrapping_add(1), 0xfe) == c.register_pc);
    let s1 = spec_cpu_tick(c, b);
    assert(s1.0 == (CPU { register_pc: c.register_pc, ..c1 }));
    let c2 = CPU { register_pc: c.register_pc.wrapping_add(1), ..s1.0 };
    assert(spec_jr_target(c2.register_pc.wrapping_add(1), 0xfe) == c.register_pc);
}


/// Law: PUSH rr on one step and POP rr on the next restore the pair
/// and the stack pointer, for code and stack in disjoint stretches of
/// work RAM, the master enable clear and the CPU awake. The index
/// selects BC, DE, HL or AF; for AF the identity is exact because the
/// synthesized flag byte has no low nibble to lose.
pub proof fn lemma_push_pop_two_steps(c: CPU, b: BusView, p: u8)
    requires
        bus_wf(b),
        p < 4,
        !c.interrupt_master_enable_flag,
        !c.ime_pending,
        !c.halted,
        0xc000 <= c.register_pc,
        c.register_pc + 2 <= 0xd000,
        0xd002 <= c.register_sp,
        c.register_sp <= 0xe000,
        spec_read(b, c.register_pc) == 0xc5 + p * 16,
        spec_read(b, c.register_pc.wrapping_add(1)) == 0xc1 + p * 16,
    ensures
        ({
            let s1 = spec_cpu_tick(c, b);
            let s2 = spec_cpu_tick(s1.0, s1.1);
            &&& s1.2 == 16
            &&& s2.2 == 12
            &&& s2.0.register_sp == c.register_sp
            &&& s2.0.register_pc == c.register_pc.wrapping_add(2)
            &&& p == 0 ==> s2.0.bc() == c.bc()
            &&& p == 1 ==> s2.0.de() == c.de()
            &&& p == 2 ==> s2.0.hl() == c.hl()
            &&& p == 3 ==> s2.0.af() == c.af()
        }),
{
    reveal(spec_execute);
    let op1 = (0xc5 + p * 16) as u8;
    let op2 = (0xc1 + p * 16) as u8;
    let c1 = CPU { register_pc: c.register_pc.wrapping_add(1), ..c };
    let v: u16 = if p == 0 {
        c.bc()
    } else if p == 1 {
        c.de()
    } else if p == 2 {
        c.hl()
    } else {
        c.af()
    };
    let s1 = spec_cpu_tick(c, b);
    assert(spec_rp_get(c1, p) == v || p == 3);
    assert(s1.1 == spec_push16(b, c.register_sp, v));
    assert(s1.0 == (CPU {
        register_sp: c.register_sp.wrapping_sub(2),
        ..c1
    }));
    assert(s1.2 == 16);
    // The push wrote only the stack bytes, which lie above the code.
    assert(spec_read(s1.1, c.register_pc.wrapping_add(1)) == op2);
    lemma_push_pop_roundtrip(b, c.register_sp, v);
    assert(spec_pop16_val(s1.1, c.register_sp.wrapping_sub(2)) == v);
    let c2 = CPU { register_pc: c.register_pc.wrapping_add(2), ..s1.0 };
    let s2 = spec_cpu_tick(s1.0, s1.1);
    if p < 3 {
        assert(s2.0 == spec_rp_set(
            CPU { register_sp: c.register_sp, ..c2 },
            p,
            spec_pop16_val(s1.1, c.register_sp.wrapping_sub(2)),
        ));
    } else {
        assert(s2.0 == spec_pop_af(c2, s1.1));
        lemma_store_f_masks(c2, (v % 256) as u8);
        assert(v % 256 == c.f_value());
        assert(v / 256 == c.register_a);
        assert((c.f_value() / 16) * 16 == c.f_value());
    }
    assert(s2.2 == 12);
}

/// Law: the flag register's low nibble is zero in every CPU state, and
/// so after every instruction of every opcode.
pub proof fn lemma_f_low_nibble_zero(c: CPU)
    ensures
        c.f_value() % 16 == 0,
{
}

/// Law: storing any byte into F and synthesizing F back gives the byte
/// with its low nibble cleared.
pub proof fn lemma_store_f_masks(c: CPU, x: u8)
    ensures
        c.spec_with_f(x).f_value() == (x / 16) * 16,
{
    assert(
        (if (x / 128) % 2 == 1 { 128int } else { 0 })
        + (if (x / 64) % 2 == 1 { 64int } else { 0 })
        + (if (x / 32) % 2 == 1 { 32int } else { 0 })
        + (if (x / 16) % 2 == 1 { 16int } else { 0 })
        == (x / 16) * 16
    ) by (bit_vector);
}

/// Law: PUSH rr followed by POP rr reloads the pushed word exactly,
/// for a stack lying in plain work RAM.
pub proof fn lemma_push_pop_roundtrip(b: BusView, sp: u16, v: u16)
    requires
        bus_wf(b),
        0xc002 <= sp,
        sp <= 0xe000,
    ensures
        spec_pop16_val(spec_push16(b, sp, v), sp.wrapping_sub(2)) == v,
{
    let b1 = spec_push16(b, sp, v);
    assert(spec_read(b1, sp.wrapping_sub(2)) == v % 256);
    assert(spec_read(b1, sp.wrapping_sub(1)) == v / 256);
}

/// Law: PUSH AF followed by POP AF restores AF exactly and restores
/// SP; the synthesized flag byte has a zero low nibble to begin with,
/// so the pop's masking removes nothing.
pub proof fn lemma_push_pop_af(c: CPU, b: BusView)
    requires
        bus_wf(b),
        0xc002 <= c.register_sp,
        c.register_sp <= 0xe000,
    ensures
        ({
            let b1 = spec_push16(b, c.register_sp, c.af());
            let c1 = CPU { register_sp: c.register_sp.wrapping_sub(2), ..c };
            let c2 = spec_pop_af(c1, b1);
            c2.af() == c.af() && c2.register_sp == c.register_sp
        }),
{
    let b1 = spec_push16(b, c.register_sp, c.af());
    let c1 = CPU { register_sp: c.register_sp.wrapping_sub(2), ..c };
    let c2 = spec_pop_af(c1, b1);
    lemma_push_pop_roundtrip(b, c.register_sp, c.af());
    let v = spec_pop16_val(b1, c.register_sp.wrapping_sub(2));
    lemma_store_f_masks(c, (v % 256) as u8);
    assert(c.f_value() % 16 == 0);
    assert(v % 256 == c.f_value());
    assert((c.f_value() / 16) * 16 == c.f_value());
    assert(v / 256 == c.register_a) by {
        assert(v == c.register_a * 256 + c.f_value());
    };
}

/// Law: POP AF; PUSH AF; POP AF leaves AF equal to the word that lay
/// on the stack masked with 0xfff0, with SP as after one pop — the low
/// nibble of F can never be made to stick.
pub proof fn lemma_pop_push_pop_af(c: CPU, b: BusView)
    requires
        bus_wf(b),
        0xc000 <= c.register_sp,
        c.register_sp + 2 <= 0xe000,
    ensures
        ({
            let v = spec_pop16_val(b, c.register_sp);
            let c1 = spec_pop_af(c, b);
            let b1 = spec_push16(b, c1.register_sp, c1.af());
            let c2 = spec_pop_af(CPU { register_sp: c.register_sp, ..c1 }, b1);
            c2.af() == (v / 16) * 16 && c2.register_sp == c.register_sp.wrapping_add(2)
        }),
{
    let v = spec_pop16_val(b, c.register_sp);
    let c1 = spec_pop_af(c, b);
    lemma_store_f_masks(c, (v % 256) as u8);
    assert(c1.register_a == v / 256);
    assert(c1.f_value() == ((v % 256) / 16) * 16);
    assert(c1.register_sp == c.register_sp.wrapping_add(2));
    let b1 = spec_push16(b, c1.register_sp, c1.af());
    let c2 = spec_pop_af(CPU { register_sp: c.register_sp, ..c1 }, b1);
    assert(c1.register_sp == c.register_sp + 2);
    lemma_push_pop_roundtrip(b, (c.register_sp + 2) as u16, c1.af());
    let w = spec_pop16_val(b1, c.register_sp);
    assert(w == c1.af());
    lemma_store_f_masks(c1, (w % 256) as u8);
    assert(c1.af() == c1.register_a * 256 + c1.f_value());
    assert(w % 256 == c1.f_value()) by {
        assert(c1.f_value() < 256);
    };
    assert(w / 256 == c1.register_a) by {
        assert(c1.f_value() < 256);
    };
    assert(c2.af() == c1.register_a * 256 + ((c1.f_value() / 16) * 16));
    assert((c1.f_value() / 16) * 16 == c1.f_value());
    assert(c2.af() == c1.af());
    assert(c1.af() == (v / 256) * 256 + ((v % 256) / 16) * 16);
    assert((v / 256) * 256 + ((v % 256) / 16) * 16 == (v / 16) * 16) by (bit_vector);
}

} // verus!
