//! Pure arithmetic and logic of the CPU instructions.
//!
//! Every operation has a spec twin that pins its result exactly, including
//! the four flags: Z (zero), N (subtraction), H (half-carry out of bit 3,
//! or bit 11 for 16-bit additions) and C (carry). All values wrap modulo
//! 2^8 or 2^16; wrapping is never an error of the machine.

use vstd::prelude::*;

verus! {

/// The four condition flags of the flag register. Bits 0 to 3 of the
/// register do not exist: they always read as zero.
#[derive(Clone, Copy, PartialEq, Eq, Structural, Debug)]
pub struct Flags {
    pub z: bool,
    pub n: bool,
    pub h: bool,
    pub c: bool,
}

/// The sign-extended value of a byte used as a relative offset.
pub open spec fn spec_signed(d: u8) -> int {
    if d < 128 {
        d as int
    } else {
        d - 256
    }
}

/// 8-bit addition: A + v, wrapping; H from bit 3, C from bit 7.
pub open spec fn spec_add8(a: u8, b: u8) -> (u8, Flags) {
    (
        a.wrapping_add(b),
        Flags {
            z: a.wrapping_add(b) == 0,
            n: false,
            h: (a % 16) + (b % 16) > 15,
            c: a + b > 255,
        },
    )
}

pub fn add8(a: u8, b: u8) -> (r: (u8, Flags))
    ensures
        r == spec_add8(a, b),
{
    let v = a.wrapping_add(b);
    (v, Flags { z: v == 0, n: false, h: (a % 16) + (b % 16) > 15, c: a as u16 + b as u16 > 255 })
}

/// 8-bit addition with carry in.
pub open spec fn spec_adc8(a: u8, b: u8, cin: bool) -> (u8, Flags) {
    let ci: u8 = if cin {
        1
    } else {
        0
    };
    (
        a.wrapping_add(b).wrapping_add(ci),
        Flags {
            z: a.wrapping_add(b).wrapping_add(ci) == 0,
            n: false,
            h: (a % 16) + (b % 16) + ci > 15,
            c: a + b + ci > 255,
        },
    )
}

pub fn adc8(a: u8, b: u8, cin: bool) -> (r: (u8, Flags))
    ensures
        r == spec_adc8(a, b, cin),
{
    let ci: u8 = if cin {
        1
    } else {
        0
    };
    let v = a.wrapping_add(b).wrapping_add(ci);
    (
        v,
        Flags {
            z: v == 0,
            n: false,
            h: (a % 16) + (b % 16) + ci > 15,
            c: a as u16 + b as u16 + ci as u16 > 255,
        },
    )
}

/// 8-bit subtraction: A - v, wrapping; H is a borrow from bit 4, C a
/// borrow from bit 8.
pub open spec fn spec_sub8(a: u8, b: u8) -> (u8, Flags) {
    (
        a.wrapping_sub(b),
        Flags { z: a == b, n: true, h: (a % 16) < (b % 16), c: a < b },
    )
}

pub fn sub8(a: u8, b: u8) -> (r: (u8, Flags))
    ensures
        r == spec_sub8(a, b),
{
    (a.wrapping_sub(b), Flags { z: a == b, n: true, h: (a % 16) < (b % 16), c: a < b })
}

/// 8-bit subtraction with borrow in.
pub open spec fn spec_sbc8(a: u8, b: u8, cin: bool) -> (u8, Flags) {
    let ci: u8 = if cin {
        1
    } else {
        0
    };
    (
        a.wrapping_sub(b).wrapping_sub(ci),
        Flags {
            z: a.wrapping_sub(b).wrapping_sub(ci) == 0,
            n: true,
            h: (a % 16) < (b % 16) + ci,
            c: (a as int) < b + ci,
        },
    )
}

pub fn sbc8(a: u8, b: u8, cin: bool) -> (r: (u8, Flags))
    ensures
        r == spec_sbc8(a, b, cin),
{
    let ci: u8 = if cin {
        1
    } else {
        0
    };
    let v = a.wrapping_sub(b).wrapping_sub(ci);
    (
        v,
        Flags {
            z: v == 0,
            n: true,
            h: (a % 16) < (b % 16) + ci,
            c: (a as u16) < b as u16 + ci as u16,
        },
    )
}

/// Bitwise AND; H is always set.
pub open spec fn spec_and8(a: u8, b: u8) -> (u8, Flags) {
    ((a & b), Flags { z: (a & b) == 0, n: false, h: true, c: false })
}

pub fn and8(a: u8, b: u8) -> (r: (u8, Flags))
    ensures
        r == spec_and8(a, b),
{
    let v = a & b;
    (v, Flags { z: v == 0, n: false, h: true, c: false })
}

/// Bitwise OR.
pub open spec fn spec_or8(a: u8, b: u8) -> (u8, Flags) {
    ((a | b), Flags { z: (a | b) == 0, n: false, h: false, c: false })
}

pub fn or8(a: u8, b: u8) -> (r: (u8, Flags))
    ensures
        r == spec_or8(a, b),
{
    let v = a | b;
    (v, Flags { z: v == 0, n: false, h: false, c: false })
}

/// Bitwise XOR.
pub open spec fn spec_xor8(a: u8, b: u8) -> (u8, Flags) {
    ((a ^ b), Flags { z: (a ^ b) == 0, n: false, h: false, c: false })
}

pub fn xor8(a: u8, b: u8) -> (r: (u8, Flags))
    ensures
        r == spec_xor8(a, b),
{
    let v = a ^ b;
    (v, Flags { z: v == 0, n: false, h: false, c: false })
}

/// Compare: the flags of a subtraction, with A left unchanged.
pub open spec fn spec_cp8(a: u8, b: u8) -> Flags {
    spec_sub8(a, b).1
}

pub fn cp8(a: u8, b: u8) -> (r: Flags)
    ensures
        r == spec_cp8(a, b),
{
    Flags { z: a == b, n: true, h: (a % 16) < (b % 16), c: a < b }
}

/// 8-bit increment; C is left as it was.
pub open spec fn spec_inc8(v: u8, c: bool) -> (u8, Flags) {
    (
        v.wrapping_add(1),
        Flags { z: v == 255, n: false, h: (v % 16) == 15, c: c },
    )
}

pub fn inc8(v: u8, c: bool) -> (r: (u8, Flags))
    ensures
        r == spec_inc8(v, c),
{
    (v.wrapping_add(1), Flags { z: v == 255, n: false, h: (v % 16) == 15, c: c })
}

/// 8-bit decrement; C is left as it was.
pub open spec fn spec_dec8(v: u8, c: bool) -> (u8, Flags) {
    (
        v.wrapping_sub(1),
        Flags { z: v == 1, n: true, h: (v % 16) == 0, c: c },
    )
}

pub fn dec8(v: u8, c: bool) -> (r: (u8, Flags))
    ensures
        r == spec_dec8(v, c),
{
    (v.wrapping_sub(1), Flags { z: v == 1, n: true, h: (v % 16) == 0, c: c })
}

/// 16-bit addition HL + rr; Z is left as it was, H is the carry out of
/// bit 11, C the carry out of bit 15.
pub open spec fn spec_add16(a: u16, b: u16, z: bool) -> (u16, Flags) {
    (
        a.wrapping_add(b),
        Flags { z: z, n: false, h: (a % 0x1000) + (b % 0x1000) > 0xfff, c: a + b > 0xffff },
    )
}

pub fn add16(a: u16, b: u16, z: bool) -> (r: (u16, Flags))
    ensures
        r == spec_add16(a, b, z),
{
    let v = a.wrapping_add(b);
    (
        v,
        Flags {
            z: z,
            n: false,
            h: (a % 0x1000) + (b % 0x1000) > 0xfff,
            c: a as u32 + b as u32 > 0xffff,
        },
    )
}

/// SP plus a signed immediate, as used by ADD SP,e8 and LD HL,SP+e8:
/// H and C come from the unsigned low byte of SP added to the raw byte;
/// Z and N are cleared.
pub open spec fn spec_addsp16(sp: u16, d: u8) -> (u16, Flags) {
    (
        spec_wrap16(sp + spec_signed(d)),
        Flags { z: false, n: false, h: (sp % 16) + (d % 16) > 15, c: (sp % 256) + d > 255 },
    )
}

/// A 16-bit value reduced modulo 2^16 from any integer.
pub open spec fn spec_wrap16(v: int) -> u16 {
    (((v % 0x10000) + 0x10000) % 0x10000) as u16
}

pub fn addsp16(sp: u16, d: u8) -> (r: (u16, Flags))
    ensures
        r == spec_addsp16(sp, d),
{
    let v: u16 = if d < 128 {
        sp.wrapping_add(d as u16)
    } else {
        sp.wrapping_sub(256 - d as u16)
    };
    assert(v == spec_wrap16(sp + spec_signed(d)));
    (v, Flags { z: false, n: false, h: (sp % 16) + (d as u16 % 16) > 15, c: (sp % 256) + d as u16 > 255 })
}

/// Swap the two nibbles of a byte.
pub open spec fn spec_swap8(v: u8) -> (u8, Flags) {
    (
        ((v % 16) * 16 + v / 16) as u8,
        Flags { z: v == 0, n: false, h: false, c: false },
    )
}

pub fn swap8(v: u8) -> (r: (u8, Flags))
    ensures
        r == spec_swap8(v),
{
    let s: u8 = (v % 16) * 16 + v / 16;
    (s, Flags { z: v == 0, n: false, h: false, c: false })
}

/// Rotate left; old bit 7 goes to C and to bit 0.
pub open spec fn spec_rlc8(v: u8) -> (u8, Flags) {
    (
        ((v % 128) * 2 + v / 128) as u8,
        Flags { z: v == 0, n: false, h: false, c: v >= 128 },
    )
}

pub fn rlc8(v: u8) -> (r: (u8, Flags))
    ensures
        r == spec_rlc8(v),
{
    let s: u8 = (v % 128) * 2 + v / 128;
    (s, Flags { z: v == 0, n: false, h: false, c: v >= 128 })
}

/// Rotate right; old bit 0 goes to C and to bit 7.
pub open spec fn spec_rrc8(v: u8) -> (u8, Flags) {
    (
        ((v % 2) * 128 + v / 2) as u8,
        Flags { z: v == 0, n: false, h: false, c: v % 2 == 1 },
    )
}

pub fn rrc8(v: u8) -> (r: (u8, Flags))
    ensures
        r == spec_rrc8(v),
{
    let s: u8 = (v % 2) * 128 + v / 2;
    (s, Flags { z: v == 0, n: false, h: false, c: v % 2 == 1 })
}

/// Rotate left through carry.
pub open spec fn spec_rl8(v: u8, cin: bool) -> (u8, Flags) {
    let s = ((v % 128) * 2 + if cin {
        1int
    } else {
        0
    }) as u8;
    (s, Flags { z: s == 0, n: false, h: false, c: v >= 128 })
}

pub fn rl8(v: u8, cin: bool) -> (r: (u8, Flags))
    ensures
        r == spec_rl8(v, cin),
{
    let s: u8 = (v % 128) * 2 + if cin {
        1
    } else {
        0
    };
    (s, Flags { z: s == 0, n: false, h: false, c: v >= 128 })
}

/// Rotate right through carry.
pub open spec fn spec_rr8(v: u8, cin: bool) -> (u8, Flags) {
    let s = (v / 2 + if cin {
        128int
    } else {
        0
    }) as u8;
    (s, Flags { z: s == 0, n: false, h: false, c: v % 2 == 1 })
}

pub fn rr8(v: u8, cin: bool) -> (r: (u8, Flags))
    ensures
        r == spec_rr8(v, cin),
{
    let s: u8 = v / 2 + if cin {
        128
    } else {
        0
    };
    (s, Flags { z: s == 0, n: false, h: false, c: v % 2 == 1 })
}

/// Arithmetic shift left; bit 7 to C, bit 0 cleared.
pub open spec fn spec_sla8(v: u8) -> (u8, Flags) {
    let s = ((v % 128) * 2) as u8;
    (s, Flags { z: s == 0, n: false, h: false, c: v >= 128 })
}

pub fn sla8(v: u8) -> (r: (u8, Flags))
    ensures
        r == spec_sla8(v),
{
    let s: u8 = (v % 128) * 2;
    (s, Flags { z: s == 0, n: false, h: false, c: v >= 128 })
}

/// Arithmetic shift right; bit 7 is kept, bit 0 to C.
pub open spec fn spec_sra8(v: u8) -> (u8, Flags) {
    let s = ((v / 128) * 128 + v / 2) as u8;
    (s, Flags { z: s == 0, n: false, h: false, c: v % 2 == 1 })
}

pub fn sra8(v: u8) -> (r: (u8, Flags))
    ensures
        r == spec_sra8(v),
{
    let s: u8 = (v / 128) * 128 + v / 2;
    (s, Flags { z: s == 0, n: false, h: false, c: v % 2 == 1 })
}

/// Logical shift right; bit 7 cleared, bit 0 to C.
pub open spec fn spec_srl8(v: u8) -> (u8, Flags) {
    (
        v / 2,
        Flags { z: v / 2 == 0, n: false, h: false, c: v % 2 == 1 },
    )
}

pub fn srl8(v: u8) -> (r: (u8, Flags))
    ensures
        r == spec_srl8(v),
{
    (v / 2, Flags { z: v / 2 == 0, n: false, h: false, c: v % 2 == 1 })
}

/// A power of two up to 2^7, for single-bit masks.
pub open spec fn spec_pow2(n: u8) -> u8 {
    if n == 0 {
        1
    } else if n == 1 {
        2
    } else if n == 2 {
        4
    } else if n == 3 {
        8
    } else if n == 4 {
        16
    } else if n == 5 {
        32
    } else if n == 6 {
        64
    } else {
        128
    }
}

pub fn pow2(n: u8) -> (r: u8)
    ensures
        r == spec_pow2(n),
{
    if n == 0 {
        1
    } else if n == 1 {
        2
    } else if n == 2 {
        4
    } else if n == 3 {
        8
    } else if n == 4 {
        16
    } else if n == 5 {
        32
    } else if n == 6 {
        64
    } else {
        128
    }
}

/// Whether bit `n` of `v` is set.
pub open spec fn spec_bit_is_set(v: u8, n: u8) -> bool {
    (v / spec_pow2(n)) % 2 == 1
}

pub fn bit_is_set(v: u8, n: u8) -> (r: bool)
    ensures
        r == spec_bit_is_set(v, n),
{
    (v / pow2(n)) % 2 == 1
}

/// BIT n: Z holds iff the tested bit is clear; C is left as it was.
pub open spec fn spec_bit8(n: u8, v: u8, c: bool) -> Flags {
    Flags { z: !spec_bit_is_set(v, n), n: false, h: true, c: c }
}

pub fn bit8(n: u8, v: u8, c: bool) -> (r: Flags)
    ensures
        r == spec_bit8(n, v, c),
{
    Flags { z: !bit_is_set(v, n), n: false, h: true, c: c }
}

/// RES n: the byte with bit `n` cleared.
pub open spec fn spec_res8(n: u8, v: u8) -> u8 {
    if spec_bit_is_set(v, n) {
        (v - spec_pow2(n)) as u8
    } else {
        v
    }
}

pub fn res8(n: u8, v: u8) -> (r: u8)
    ensures
        r == spec_res8(n, v),
{
    let m = pow2(n);
    if (v / m) % 2 == 1 {
        assert(v >= m);
        v - m
    } else {
        v
    }
}

/// SET n: the byte with bit `n` set.
pub open spec fn spec_set8(n: u8, v: u8) -> u8 {
    if spec_bit_is_set(v, n) {
        v
    } else {
        (v + spec_pow2(n)) as u8
    }
}

pub fn set8(n: u8, v: u8) -> (r: u8)
    ensures
        r == spec_set8(n, v),
{
    let m = pow2(n);
    if (v / m) % 2 == 1 {
        v
    } else {
        assert(v + m <= 255) by {
            assert((v / m) % 2 == 0);
        };
        v + m
    }
}

/// Law: SWAP twice restores the byte; the flags of the second SWAP
/// show Z of the restored value and clear N, H and C.
pub proof fn lemma_swap_involutive(v: u8)
    ensures
        spec_swap8(spec_swap8(v).0).0 == v,
        spec_swap8(spec_swap8(v).0).1 == (Flags { z: v == 0, n: false, h: false, c: false }),
{
    let s = spec_swap8(v).0;
    assert(s % 16 == v / 16);
    assert(s / 16 == v % 16);
    assert(s == 0 ==> v == 0);
}

/// Law: RLC then RRC restores the byte, and the final flags have N and
/// H clear.
pub proof fn lemma_rlc_rrc_roundtrip(v: u8)
    ensures
        spec_rrc8(spec_rlc8(v).0).0 == v,
        !spec_rrc8(spec_rlc8(v).0).1.n,
        !spec_rrc8(spec_rlc8(v).0).1.h,
{
    let s = spec_rlc8(v).0;
    assert(s % 2 == v / 128);
    assert(s / 2 == v % 128);
}

/// Decimal adjust after a BCD addition or subtraction, driven by the
/// N, H and C flags the preceding operation left behind.
pub open spec fn spec_daa8(a: u8, n: bool, h: bool, c: bool) -> (u8, Flags) {
    let (v1, c1): (u8, bool) = if !n {
        if c || a > 0x99 {
            (a.wrapping_add(0x60), true)
        } else {
            (a, false)
        }
    } else {
        if c {
            (a.wrapping_sub(0x60), true)
        } else {
            (a, false)
        }
    };
    let v2: u8 = if !n {
        if h || (a % 16) > 9 {
            v1.wrapping_add(0x06)
        } else {
            v1
        }
    } else {
        if h {
            v1.wrapping_sub(0x06)
        } else {
            v1
        }
    };
    (v2, Flags { z: v2 == 0, n: n, h: false, c: c1 })
}

pub fn daa8(a: u8, n: bool, h: bool, c: bool) -> (r: (u8, Flags))
    ensures
        r == spec_daa8(a, n, h, c),
{
    let (v1, c1): (u8, bool) = if !n {
        if c || a > 0x99 {
            (a.wrapping_add(0x60), true)
        } else {
            (a, false)
        }
    } else {
        if c {
            (a.wrapping_sub(0x60), true)
        } else {
            (a, false)
        }
    };
    let v2: u8 = if !n {
        if h || (a % 16) > 9 {
            v1.wrapping_add(0x06)
        } else {
            v1
        }
    } else {
        if h {
            v1.wrapping_sub(0x06)
        } else {
            v1
        }
    };
    (v2, Flags { z: v2 == 0, n: n, h: false, c: c1 })
}

} // verus!
