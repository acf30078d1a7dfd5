//! Instruction-level behavior: arithmetic flags, rotations, the stack,
//! relative jumps, interrupts and the flag-register invariant.

use rboy::cpu::{Flag, RegisterValue, CPU};
use rboy::memory::Memory;

/// A bus with the boot overlay already disabled and an all-zero
/// cartridge mapped, so PC can run anywhere.
fn plain_bus() -> Memory {
    let mut mem = Memory::new(vec![0u8; 256], false);
    mem.set(0xff50, 1);
    mem.load_rom(vec![0u8; 0x8000]).unwrap();
    mem
}

/// Write a program into work RAM and point PC at it.
fn load_program(cpu: &mut CPU, mem: &mut Memory, program: &[u8]) {
    let base: u16 = 0xc000;
    for (i, b) in program.iter().enumerate() {
        mem.set(base + i as u16, *b);
    }
    cpu.set_value(&RegisterValue::PC(base));
}

fn af_of(cpu: &CPU) -> u16 {
    match cpu.get_value(&RegisterValue::AF(0)) {
        RegisterValue::AF(v) => v,
        _ => unreachable!(),
    }
}

fn pc_of(cpu: &CPU) -> u16 {
    match cpu.get_value(&RegisterValue::PC(0)) {
        RegisterValue::PC(v) => v,
        _ => unreachable!(),
    }
}

#[test]
fn opcode_smoke() {
    // LD A,0x3C; LD B,0x12; ADD A,B; HALT
    let mut mem = plain_bus();
    let mut cpu = CPU::new();
    load_program(&mut cpu, &mut mem, &[0x3e, 0x3c, 0x06, 0x12, 0x80, 0x76]);
    for _ in 0..8 {
        if cpu.is_halted() {
            break;
        }
        cpu.tick(&mut mem).unwrap();
    }
    assert!(cpu.is_halted());
    assert_eq!(cpu.register_a, 0x4e);
    assert!(!cpu.get_flag(&Flag::Z(false)));
    assert!(!cpu.get_flag(&Flag::N(false)));
    assert!(!cpu.get_flag(&Flag::H(false)));
    assert!(!cpu.get_flag(&Flag::C(false)));
}

#[test]
fn inc_wraps_to_zero_with_half_carry() {
    // INC of 0xFF gives 0x00 with Z=1, H=1, N=0 and C untouched.
    let mut mem = plain_bus();
    let mut cpu = CPU::new();
    cpu.set_value(&RegisterValue::A(0xff));
    cpu.set_flag(&Flag::C(true));
    load_program(&mut cpu, &mut mem, &[0x3c]);
    cpu.tick(&mut mem).unwrap();
    assert_eq!(cpu.register_a, 0x00);
    assert!(cpu.get_flag(&Flag::Z(false)));
    assert!(cpu.get_flag(&Flag::H(false)));
    assert!(!cpu.get_flag(&Flag::N(false)));
    assert!(cpu.get_flag(&Flag::C(false)));
}

#[test]
fn add_half_carry_from_low_nibble() {
    // ADD A,n with A=0x0F, n=0x01 sets H.
    let mut mem = plain_bus();
    let mut cpu = CPU::new();
    cpu.set_value(&RegisterValue::A(0x0f));
    load_program(&mut cpu, &mut mem, &[0xc6, 0x01]);
    cpu.tick(&mut mem).unwrap();
    assert_eq!(cpu.register_a, 0x10);
    assert!(cpu.get_flag(&Flag::H(false)));
    assert!(!cpu.get_flag(&Flag::C(false)));
}

#[test]
fn add_hl_half_carry_from_bit_11() {
    // ADD HL,BC with HL=0x0FFF, BC=0x0001 sets H.
    let mut mem = plain_bus();
    let mut cpu = CPU::new();
    cpu.set_value(&RegisterValue::HL(0x0fff));
    cpu.set_value(&RegisterValue::BC(0x0001));
    load_program(&mut cpu, &mut mem, &[0x09]);
    cpu.tick(&mut mem).unwrap();
    match cpu.get_value(&RegisterValue::HL(0)) {
        RegisterValue::HL(v) => assert_eq!(v, 0x1000),
        _ => unreachable!(),
    }
    assert!(cpu.get_flag(&Flag::H(false)));
    assert!(!cpu.get_flag(&Flag::N(false)));
}

#[test]
fn swap_twice_restores_register() {
    // SWAP B; SWAP B restores B; Z reflects the value, N=H=C=0.
    let mut mem = plain_bus();
    let mut cpu = CPU::new();
    cpu.set_value(&RegisterValue::B(0xab));
    cpu.set_flag(&Flag::C(true));
    load_program(&mut cpu, &mut mem, &[0xcb, 0x30, 0xcb, 0x30]);
    cpu.tick(&mut mem).unwrap();
    assert_eq!(cpu.register_b, 0xba);
    cpu.tick(&mut mem).unwrap();
    assert_eq!(cpu.register_b, 0xab);
    assert!(!cpu.get_flag(&Flag::Z(false)));
    assert!(!cpu.get_flag(&Flag::N(false)));
    assert!(!cpu.get_flag(&Flag::H(false)));
    assert!(!cpu.get_flag(&Flag::C(false)));
}

#[test]
fn swap_zero_sets_z() {
    let mut mem = plain_bus();
    let mut cpu = CPU::new();
    cpu.set_value(&RegisterValue::B(0x00));
    load_program(&mut cpu, &mut mem, &[0xcb, 0x30]);
    cpu.tick(&mut mem).unwrap();
    assert_eq!(cpu.register_b, 0x00);
    assert!(cpu.get_flag(&Flag::Z(false)));
}

#[test]
fn rlc_rrc_restores_register_and_clears_h_n() {
    // RLC C; RRC C restores C and leaves H and N clear.
    let mut mem = plain_bus();
    let mut cpu = CPU::new();
    cpu.set_value(&RegisterValue::C(0x91));
    load_program(&mut cpu, &mut mem, &[0xcb, 0x01, 0xcb, 0x09]);
    cpu.tick(&mut mem).unwrap();
    assert_eq!(cpu.register_c, 0x23);
    cpu.tick(&mut mem).unwrap();
    assert_eq!(cpu.register_c, 0x91);
    assert!(!cpu.get_flag(&Flag::H(false)));
    assert!(!cpu.get_flag(&Flag::N(false)));
}

#[test]
fn push_pop_roundtrip_all_pairs() {
    // PUSH rr; POP rr is the identity and restores SP; AF keeps only
    // its upper flag nibble, which is all it ever holds.
    let mut mem = plain_bus();
    let mut cpu = CPU::new();
    cpu.set_value(&RegisterValue::SP(0xdff0));
    cpu.set_value(&RegisterValue::BC(0x1234));
    cpu.set_value(&RegisterValue::DE(0x5678));
    cpu.set_value(&RegisterValue::HL(0x9abc));
    cpu.set_value(&RegisterValue::AF(0xdef7));
    // PUSH BC; POP BC; PUSH DE; POP DE; PUSH HL; POP HL; PUSH AF; POP AF
    load_program(
        &mut cpu,
        &mut mem,
        &[0xc5, 0xc1, 0xd5, 0xd1, 0xe5, 0xe1, 0xf5, 0xf1],
    );
    for _ in 0..8 {
        cpu.tick(&mut mem).unwrap();
    }
    match cpu.get_value(&RegisterValue::BC(0)) {
        RegisterValue::BC(v) => assert_eq!(v, 0x1234),
        _ => unreachable!(),
    }
    match cpu.get_value(&RegisterValue::DE(0)) {
        RegisterValue::DE(v) => assert_eq!(v, 0x5678),
        _ => unreachable!(),
    }
    match cpu.get_value(&RegisterValue::HL(0)) {
        RegisterValue::HL(v) => assert_eq!(v, 0x9abc),
        _ => unreachable!(),
    }
    // The low nibble of AF never existed: 0xdef7 was stored as 0xdef0.
    assert_eq!(af_of(&cpu), 0xdef0);
    match cpu.get_value(&RegisterValue::SP(0)) {
        RegisterValue::SP(v) => assert_eq!(v, 0xdff0),
        _ => unreachable!(),
    }
}

#[test]
fn pop_push_pop_af_masks_low_nibble() {
    // POP AF; PUSH AF; POP AF gives the stacked word masked 0xfff0.
    let mut mem = plain_bus();
    let mut cpu = CPU::new();
    cpu.set_value(&RegisterValue::SP(0xdf00));
    mem.set(0xdf00, 0xcd); // low byte: flags, low nibble must vanish
    mem.set(0xdf01, 0xab); // high byte: A
    load_program(&mut cpu, &mut mem, &[0xf1, 0xf5, 0xf1]);
    for _ in 0..3 {
        cpu.tick(&mut mem).unwrap();
    }
    assert_eq!(af_of(&cpu), 0xabc0);
    match cpu.get_value(&RegisterValue::SP(0)) {
        RegisterValue::SP(v) => assert_eq!(v, 0xdf02),
        _ => unreachable!(),
    }
}

#[test]
fn flag_low_nibble_reads_zero_always() {
    // However F is written, its low nibble reads as zero after any
    // instruction.
    let mut mem = plain_bus();
    let mut cpu = CPU::new();
    cpu.set_value(&RegisterValue::F(0xff));
    assert_eq!(af_of(&cpu) & 0x000f, 0);
    load_program(
        &mut cpu,
        &mut mem,
        &[0x3e, 0x0f, 0xc6, 0x01, 0x37, 0x3f, 0x2f, 0x27],
    );
    for _ in 0..6 {
        cpu.tick(&mut mem).unwrap();
        assert_eq!(af_of(&cpu) & 0x000f, 0);
    }
}

#[test]
fn jr_minus_two_loops_forever() {
    // JR -2 at an unconditional branch: PC is unchanged across ticks.
    let mut mem = plain_bus();
    let mut cpu = CPU::new();
    load_program(&mut cpu, &mut mem, &[0x18, 0xfe]);
    let start = pc_of(&cpu);
    cpu.tick(&mut mem).unwrap();
    assert_eq!(pc_of(&cpu), start);
    cpu.tick(&mut mem).unwrap();
    assert_eq!(pc_of(&cpu), start);
}

#[test]
fn interrupt_dispatch_and_reti() {
    // IE=1, IF=1, IME=1, PC=0x0100, SP=0xFFFE, RETI at the vector:
    // one tick pushes 0x0100, jumps to 0x0040, clears IF bit 0 and
    // IME, and costs 20 T-cycles; the next tick returns.
    let mut mem = Memory::new(vec![0u8; 256], false);
    mem.set(0xff50, 1);
    let mut rom = vec![0u8; 0x8000];
    rom[0x40] = 0xd9; // RETI
    mem.load_rom(rom).unwrap();
    let mut cpu = CPU::new();
    cpu.interrupt_master_enable_flag = true;
    cpu.set_value(&RegisterValue::PC(0x0100));
    cpu.set_value(&RegisterValue::SP(0xfffe));
    mem.set(0xffff, 0x01);
    mem.set(0xff0f, 0x01);

    let cycles = cpu.tick(&mut mem).unwrap();
    assert_eq!(cycles, 20);
    assert_eq!(pc_of(&cpu), 0x0040);
    assert_eq!(mem.get(0xfffc), 0x00);
    assert_eq!(mem.get(0xfffd), 0x01);
    assert_eq!(mem.get(0xff0f) & 0x01, 0);
    assert!(!cpu.ime());

    let cycles = cpu.tick(&mut mem).unwrap();
    assert_eq!(cycles, 16);
    assert_eq!(pc_of(&cpu), 0x0100);
    assert!(cpu.ime());
    match cpu.get_value(&RegisterValue::SP(0)) {
        RegisterValue::SP(v) => assert_eq!(v, 0xfffe),
        _ => unreachable!(),
    }
}

#[test]
fn ei_delays_one_instruction() {
    // The instruction after EI cannot be interrupted.
    let mut mem = plain_bus();
    let mut cpu = CPU::new();
    mem.set(0xffff, 0x01);
    mem.set(0xff0f, 0x01);
    cpu.set_value(&RegisterValue::SP(0xfffe));
    // EI; NOP; NOP
    load_program(&mut cpu, &mut mem, &[0xfb, 0x00, 0x00]);
    cpu.tick(&mut mem).unwrap(); // EI
    let pc_after_ei = pc_of(&cpu);
    cpu.tick(&mut mem).unwrap(); // the protected instruction
    assert_eq!(pc_of(&cpu), pc_after_ei + 1);
    let cycles = cpu.tick(&mut mem).unwrap(); // now the dispatch
    assert_eq!(cycles, 20);
    assert_eq!(pc_of(&cpu), 0x0040);
}

#[test]
fn undefined_opcode_reports_fault() {
    let mut mem = plain_bus();
    let mut cpu = CPU::new();
    load_program(&mut cpu, &mut mem, &[0xdd]);
    let fault = cpu.tick(&mut mem).unwrap_err();
    assert_eq!(fault.opcode, 0xdd);
    assert_eq!(fault.pc, 0xc000);
}

#[test]
fn halt_waits_and_wakes_on_pending_interrupt() {
    let mut mem = plain_bus();
    let mut cpu = CPU::new();
    load_program(&mut cpu, &mut mem, &[0x76, 0x00]);
    cpu.tick(&mut mem).unwrap();
    assert!(cpu.is_halted());
    assert_eq!(cpu.tick(&mut mem).unwrap(), 4);
    assert!(cpu.is_halted());
    // An enabled pending interrupt ends the wait even with IME off.
    mem.set(0xffff, 0x04);
    mem.set(0xff0f, 0x04);
    cpu.tick(&mut mem).unwrap();
    assert!(!cpu.is_halted());
    assert!(!cpu.ime());
}

#[test]
fn daa_adjusts_bcd_addition() {
    // 0x15 + 0x27 = 0x3C, adjusted to BCD 0x42.
    let mut mem = plain_bus();
    let mut cpu = CPU::new();
    cpu.set_value(&RegisterValue::A(0x15));
    cpu.set_value(&RegisterValue::B(0x27));
    load_program(&mut cpu, &mut mem, &[0x80, 0x27]);
    cpu.tick(&mut mem).unwrap();
    cpu.tick(&mut mem).unwrap();
    assert_eq!(cpu.register_a, 0x42);
}

#[test]
fn pair_write_aliases_both_halves() {
    // Writing AF equals writing A with the high byte and F with the
    // low byte, whose bottom nibble is dropped.
    let mut cpu = CPU::new();
    cpu.set_value(&RegisterValue::AF(0x12f7));
    assert_eq!(cpu.register_a, 0x12);
    match cpu.get_value(&RegisterValue::F(0)) {
        RegisterValue::F(f) => assert_eq!(f, 0xf0),
        _ => unreachable!(),
    }
    let mut cpu2 = CPU::new();
    cpu2.set_value(&RegisterValue::A(0x12));
    cpu2.set_value(&RegisterValue::F(0xf7));
    assert_eq!(af_of(&cpu2), af_of(&cpu));
    // The other pairs alias their byte registers directly.
    cpu.set_value(&RegisterValue::BC(0xabcd));
    assert_eq!(cpu.register_b, 0xab);
    assert_eq!(cpu.register_c, 0xcd);
    cpu.set_value(&RegisterValue::H(0x55));
    cpu.set_value(&RegisterValue::L(0xaa));
    match cpu.get_value(&RegisterValue::HL(0)) {
        RegisterValue::HL(v) => assert_eq!(v, 0x55aa),
        _ => unreachable!(),
    }
}

#[test]
fn lowest_interrupt_bit_has_priority() {
    // With the timer (bit 2) and VBlank (bit 0) both pending and
    // enabled, the VBlank vector is taken and only its flag cleared.
    let mut mem = plain_bus();
    let mut cpu = CPU::new();
    cpu.interrupt_master_enable_flag = true;
    cpu.set_value(&RegisterValue::SP(0xfffe));
    cpu.set_value(&RegisterValue::PC(0xc000));
    mem.set(0xffff, 0x05);
    mem.set(0xff0f, 0x05);
    let cycles = cpu.tick(&mut mem).unwrap();
    assert_eq!(cycles, 20);
    assert_eq!(pc_of(&cpu), 0x0040);
    assert_eq!(mem.get(0xff0f), 0x04);
}

#[test]
fn conditional_calls_and_returns_follow_flags() {
    // CALL NZ taken, RET Z not taken, then RET NZ taken.
    let mut mem = plain_bus();
    let mut cpu = CPU::new();
    cpu.set_value(&RegisterValue::SP(0xdff0));
    // At 0xc000: CALL NZ,0xc010.  At 0xc010: RET Z; RET NZ.
    load_program(&mut cpu, &mut mem, &[0xc4, 0x10, 0xc0]);
    mem.set(0xc010, 0xc8); // RET Z
    mem.set(0xc011, 0xc0); // RET NZ
    assert_eq!(cpu.tick(&mut mem).unwrap(), 24); // CALL NZ taken
    assert_eq!(pc_of(&cpu), 0xc010);
    assert_eq!(cpu.tick(&mut mem).unwrap(), 8); // RET Z not taken
    assert_eq!(pc_of(&cpu), 0xc011);
    assert_eq!(cpu.tick(&mut mem).unwrap(), 20); // RET NZ taken
    assert_eq!(pc_of(&cpu), 0xc003);
    match cpu.get_value(&RegisterValue::SP(0)) {
        RegisterValue::SP(v) => assert_eq!(v, 0xdff0),
        _ => unreachable!(),
    }
}

#[test]
fn sixteen_bit_immediate_is_little_endian() {
    let mut mem = plain_bus();
    let mut cpu = CPU::new();
    load_program(&mut cpu, &mut mem, &[0x01, 0x34, 0x12]); // LD BC,0x1234
    cpu.tick(&mut mem).unwrap();
    match cpu.get_value(&RegisterValue::BC(0)) {
        RegisterValue::BC(v) => assert_eq!(v, 0x1234),
        _ => unreachable!(),
    }
}
