use dmgemu::bus::MemoryBus;
use dmgemu::cart::{Cartridge, CartridgeHeader};
use dmgemu::cpu::instructions::Instruction;
use dmgemu::cpu::register_file::{Flags, Register};
use dmgemu::cpu::{CpuContext, CpuMode, StepResult, CPU};
use dmgemu::emu::Emulator;
use dmgemu::lcd::DEFAULT_COLORS;

/// A machine with a cartridge of 32 KiB that holds `program` at `origin`.
fn machine(origin: u16, program: &[u8]) -> Emulator {
    let mut data = vec![0u8; 0x8000];
    for (i, byte) in program.iter().enumerate() {
        data[origin as usize + i] = *byte;
    }
    let header = CartridgeHeader::load(&data).unwrap();
    let cartridge = Cartridge { file: String::new(), size: data.len() as u32, data, header };
    let mut emulator = Emulator::new();
    emulator.bus = MemoryBus::from_rom(Some(cartridge));
    emulator
}

fn cpu_at(pc: u16) -> CPU {
    let mut cpu = CPU::new();
    cpu.registers.pc = pc;
    cpu
}

fn cycles(emulator: &Emulator, before: u64) -> u64 {
    (emulator.ticks() - before) / 4
}

#[test]
fn inc_b_sets_half_carry() {
    let mut emulator = machine(0x0100, &[0x04]);
    let mut cpu = cpu_at(0x0100);
    cpu.registers.b = 0x0F;
    let carry = cpu.registers.cf();
    assert_eq!(cpu.step(&mut emulator), StepResult::Continue);
    assert_eq!(cpu.registers.b, 0x10);
    assert!(!cpu.registers.zf());
    assert!(!cpu.registers.nf());
    assert!(cpu.registers.hf());
    assert_eq!(cpu.registers.cf(), carry);
    assert_eq!(cpu.registers.pc, 0x0101);
}

#[test]
fn add_a_a_overflows_to_zero() {
    let mut emulator = machine(0x0100, &[0x87]);
    let mut cpu = cpu_at(0x0100);
    cpu.registers.a = 0x80;
    cpu.step(&mut emulator);
    assert_eq!(cpu.registers.a, 0x00);
    assert!(cpu.registers.zf());
    assert!(!cpu.registers.nf());
    assert!(!cpu.registers.hf());
    assert!(cpu.registers.cf());
}

#[test]
fn daa_after_addition() {
    // 0x45 + 0x38 = 0x7D, which DAA turns into 0x83
    let mut emulator = machine(0x0100, &[0x80, 0x27]);
    let mut cpu = cpu_at(0x0100);
    cpu.registers.a = 0x45;
    cpu.registers.b = 0x38;
    cpu.step(&mut emulator);
    assert_eq!(cpu.registers.a, 0x7D);
    cpu.step(&mut emulator);
    assert_eq!(cpu.registers.a, 0x83);
    assert!(!cpu.registers.zf());
    assert!(!cpu.registers.nf());
    assert!(!cpu.registers.hf());
    assert!(!cpu.registers.cf());
}

#[test]
fn daa_after_subtraction() {
    // 0x42 - 0x13 = 0x2F with a half borrow, which DAA turns into 0x29
    let mut emulator = machine(0x0100, &[0x90, 0x27]);
    let mut cpu = cpu_at(0x0100);
    cpu.registers.a = 0x42;
    cpu.registers.b = 0x13;
    cpu.step(&mut emulator);
    assert_eq!(cpu.registers.a, 0x2F);
    assert!(cpu.registers.nf());
    assert!(cpu.registers.hf());
    cpu.step(&mut emulator);
    assert_eq!(cpu.registers.a, 0x29);
    assert!(cpu.registers.nf());
    assert!(!cpu.registers.hf());
    assert!(!cpu.registers.cf());
}

#[test]
fn ldh_a8_writes_background_palette() {
    let mut emulator = machine(0x0100, &[0xE0, 0x47]);
    let mut cpu = cpu_at(0x0100);
    cpu.registers.a = 0x42;
    let before = emulator.ticks();
    cpu.step(&mut emulator);
    assert_eq!(cycles(&emulator, before), 3);
    assert_eq!(emulator.peek(0xFF47), 0x42);
    // 0x42 is 01 00 00 10: the slots take the shades 2, 0, 0 and 1
    assert_eq!(emulator.ppu.lcd.bg_colors.c0, DEFAULT_COLORS[2]);
    assert_eq!(emulator.ppu.lcd.bg_colors.c1, DEFAULT_COLORS[0]);
    assert_eq!(emulator.ppu.lcd.bg_colors.c2, DEFAULT_COLORS[0]);
    assert_eq!(emulator.ppu.lcd.bg_colors.c3, DEFAULT_COLORS[1]);
    assert_eq!(cpu.registers.pc, 0x0102);
}

#[test]
fn push_bc_pop_af_masks_low_nibble() {
    let mut emulator = machine(0x0100, &[0xC5, 0xF1]);
    let mut cpu = cpu_at(0x0100);
    cpu.registers.write16(Register::BC, 0x1234);
    let sp = cpu.registers.sp;
    let before = emulator.ticks();
    cpu.step(&mut emulator);
    assert_eq!(cycles(&emulator, before), 4);
    assert_eq!(cpu.registers.sp, sp.wrapping_sub(2));
    let before = emulator.ticks();
    cpu.step(&mut emulator);
    assert_eq!(cycles(&emulator, before), 3);
    assert_eq!(cpu.registers.a, 0x12);
    assert_eq!(cpu.registers.read8(Register::F), 0x30);
    assert_eq!(cpu.registers.read16(Register::AF), 0x1230);
    assert_eq!(cpu.registers.sp, sp);
}

#[test]
fn call_then_ret() {
    // CALL 0x1234 at 0x0150, and RET at 0x1234
    let mut program = vec![0u8; 0x1234 - 0x0150 + 1];
    program[0] = 0xCD;
    program[1] = 0x34;
    program[2] = 0x12;
    program[0x1234 - 0x0150] = 0xC9;
    let mut emulator = machine(0x0150, &program);
    let mut cpu = cpu_at(0x0150);
    cpu.registers.sp = 0xFFFE;

    let before = emulator.ticks();
    cpu.step(&mut emulator);
    assert_eq!(cycles(&emulator, before), 6);
    assert_eq!(cpu.registers.pc, 0x1234);
    assert_eq!(cpu.registers.sp, 0xFFFC);
    assert_eq!(emulator.peek(0xFFFC), 0x53);
    assert_eq!(emulator.peek(0xFFFD), 0x01);

    let before = emulator.ticks();
    cpu.step(&mut emulator);
    assert_eq!(cycles(&emulator, before), 4);
    assert_eq!(cpu.registers.pc, 0x0153);
    assert_eq!(cpu.registers.sp, 0xFFFE);
}

#[test]
fn illegal_opcode_ends_the_step() {
    for opcode in [0xD3u8, 0xDB, 0xDD, 0xE3, 0xE4, 0xEB, 0xEC, 0xED, 0xF4, 0xFC, 0xFD] {
        assert!(!Instruction::is_legal(opcode));
        let mut emulator = machine(0x0200, &[opcode]);
        let mut cpu = cpu_at(0x0200);
        let before = emulator.ticks();
        assert_eq!(cpu.step(&mut emulator), StepResult::IllegalOpcode { pc: 0x0200, opcode });
        assert_eq!(cycles(&emulator, before), 1);
        assert_eq!(cpu.registers.pc, 0x0201);
    }
}

#[test]
fn stop_stops_the_processor() {
    let mut emulator = machine(0x0100, &[0x10, 0x00]);
    let mut cpu = cpu_at(0x0100);
    let before = emulator.ticks();
    assert_eq!(cpu.step(&mut emulator), StepResult::Continue);
    assert_eq!(cpu.mode, CpuMode::Stopped);
    // two bytes in one memory cycle: the second byte is not read
    assert_eq!(cpu.registers.pc, 0x0102);
    assert_eq!(cycles(&emulator, before), 1);
    let before = emulator.ticks();
    assert_eq!(cpu.step(&mut emulator), StepResult::Stopped);
    assert_eq!(emulator.ticks(), before);
    // STOP is two bytes long
    assert_eq!(cpu.registers.pc, 0x0102);
}

/// The length of every unprefixed instruction, as the manual gives it; zero
/// for the opcodes that are no instruction.
const LENGTHS: [u8; 256] = [
    1, 3, 1, 1, 1, 1, 2, 1, 3, 1, 1, 1, 1, 1, 2, 1, // 0x
    2, 3, 1, 1, 1, 1, 2, 1, 2, 1, 1, 1, 1, 1, 2, 1, // 1x
    2, 3, 1, 1, 1, 1, 2, 1, 2, 1, 1, 1, 1, 1, 2, 1, // 2x
    2, 3, 1, 1, 1, 1, 2, 1, 2, 1, 1, 1, 1, 1, 2, 1, // 3x
    1, 1, 1, 1, 1, 1, 1, 1, 1, 1, 1, 1, 1, 1, 1, 1, // 4x
    1, 1, 1, 1, 1, 1, 1, 1, 1, 1, 1, 1, 1, 1, 1, 1, // 5x
    1, 1, 1, 1, 1, 1, 1, 1, 1, 1, 1, 1, 1, 1, 1, 1, // 6x
    1, 1, 1, 1, 1, 1, 1, 1, 1, 1, 1, 1, 1, 1, 1, 1, // 7x
    1, 1, 1, 1, 1, 1, 1, 1, 1, 1, 1, 1, 1, 1, 1, 1, // 8x
    1, 1, 1, 1, 1, 1, 1, 1, 1, 1, 1, 1, 1, 1, 1, 1, // 9x
    1, 1, 1, 1, 1, 1, 1, 1, 1, 1, 1, 1, 1, 1, 1, 1, // Ax
    1, 1, 1, 1, 1, 1, 1, 1, 1, 1, 1, 1, 1, 1, 1, 1, // Bx
    1, 1, 3, 3, 3, 1, 2, 1, 1, 1, 3, 2, 3, 3, 2, 1, // Cx
    1, 1, 3, 0, 3, 1, 2, 1, 1, 1, 3, 0, 3, 0, 2, 1, // Dx
    2, 1, 1, 0, 0, 1, 2, 1, 2, 1, 3, 0, 0, 0, 2, 1, // Ex
    2, 1, 1, 1, 0, 1, 2, 1, 2, 1, 3, 1, 0, 0, 2, 1, // Fx
];

/// The memory cycles of every unprefixed instruction, as the manual gives
/// them, for a conditional branch that is not taken.
const CYCLES: [u8; 256] = [
    1, 3, 2, 2, 1, 1, 2, 1, 5, 2, 2, 2, 1, 1, 2, 1, // 0x
    1, 3, 2, 2, 1, 1, 2, 1, 3, 2, 2, 2, 1, 1, 2, 1, // 1x
    2, 3, 2, 2, 1, 1, 2, 1, 2, 2, 2, 2, 1, 1, 2, 1, // 2x
    2, 3, 2, 2, 3, 3, 3, 1, 2, 2, 2, 2, 1, 1, 2, 1, // 3x
    1, 1, 1, 1, 1, 1, 2, 1, 1, 1, 1, 1, 1, 1, 2, 1, // 4x
    1, 1, 1, 1, 1, 1, 2, 1, 1, 1, 1, 1, 1, 1, 2, 1, // 5x
    1, 1, 1, 1, 1, 1, 2, 1, 1, 1, 1, 1, 1, 1, 2, 1, // 6x
    2, 2, 2, 2, 2, 2, 1, 2, 1, 1, 1, 1, 1, 1, 2, 1, // 7x
    1, 1, 1, 1, 1, 1, 2, 1, 1, 1, 1, 1, 1, 1, 2, 1, // 8x
    1, 1, 1, 1, 1, 1, 2, 1, 1, 1, 1, 1, 1, 1, 2, 1, // 9x
    1, 1, 1, 1, 1, 1, 2, 1, 1, 1, 1, 1, 1, 1, 2, 1, // Ax
    1, 1, 1, 1, 1, 1, 2, 1, 1, 1, 1, 1, 1, 1, 2, 1, // Bx
    2, 3, 3, 4, 3, 4, 2, 4, 2, 4, 3, 0, 3, 6, 2, 4, // Cx
    2, 3, 3, 0, 3, 4, 2, 4, 2, 4, 3, 0, 3, 0, 2, 4, // Dx
    3, 3, 2, 0, 0, 4, 2, 4, 4, 1, 4, 0, 0, 0, 2, 4, // Ex
    3, 3, 2, 1, 0, 4, 2, 4, 3, 2, 4, 1, 0, 0, 2, 4, // Fx
];

/// The conditional branches with the flags under which they are taken and
/// the memory cycles that the manual gives them then.
const BRANCHES: [(u8, u8, u8); 16] = [
    (0x20, 0x00, 3),
    (0x28, 0x80, 3),
    (0x30, 0x00, 3),
    (0x38, 0x10, 3),
    (0xC0, 0x00, 5),
    (0xC8, 0x80, 5),
    (0xD0, 0x00, 5),
    (0xD8, 0x10, 5),
    (0xC2, 0x00, 4),
    (0xCA, 0x80, 4),
    (0xD2, 0x00, 4),
    (0xDA, 0x10, 4),
    (0xC4, 0x00, 6),
    (0xCC, 0x80, 6),
    (0xD4, 0x00, 6),
    (0xDC, 0x10, 6),
];

fn is_branch(opcode: u8) -> bool {
    matches!(
        opcode,
        0x18 | 0x20 | 0x28 | 0x30 | 0x38 | 0xC0 | 0xC2 | 0xC3 | 0xC4 | 0xC7 | 0xC8 | 0xC9 | 0xCA | 0xCC | 0xCD
            | 0xCF | 0xD0 | 0xD2 | 0xD4 | 0xD7 | 0xD8 | 0xD9 | 0xDA | 0xDC | 0xDF | 0xE7 | 0xE9 | 0xEF | 0xF7
            | 0xFF
    )
}

fn is_conditional(opcode: u8) -> bool {
    BRANCHES.iter().any(|(o, _, _)| *o == opcode)
}

/// The flags under which the conditional branch `opcode` is not taken.
fn flags_against(opcode: u8) -> u8 {
    let taken = BRANCHES.iter().find(|(o, _, _)| *o == opcode).unwrap().1;
    match taken {
        0x00 => 0x90,
        _ => 0x00,
    }
}

#[test]
fn instructions_have_canonical_length() {
    for opcode in 0..=255u8 {
        if LENGTHS[opcode as usize] == 0 || opcode == 0xCB {
            continue;
        }
        // A conditional branch is run with its condition failing; the others
        // of the branches are left out
        if is_branch(opcode) && !is_conditional(opcode) {
            continue;
        }
        let mut emulator = machine(0x0200, &[opcode, 0x05, 0xC1]);
        let mut cpu = cpu_at(0x0200);
        cpu.registers.write16(Register::HL, 0xC100);
        cpu.registers.write16(Register::BC, 0xC200);
        cpu.registers.write16(Register::DE, 0xC300);
        if is_conditional(opcode) {
            cpu.registers.f = Flags::from_bits_truncate(flags_against(opcode));
        }
        assert_eq!(cpu.step(&mut emulator), StepResult::Continue);
        let expected = LENGTHS[opcode as usize] as u16;
        assert_eq!(cpu.registers.pc, 0x0200 + expected, "opcode {:02X}", opcode);
    }
}

#[test]
fn prefixed_instructions_are_two_bytes_long() {
    for second in 0..=255u8 {
        let mut emulator = machine(0x0200, &[0xCB, second]);
        let mut cpu = cpu_at(0x0200);
        cpu.registers.write16(Register::HL, 0xC100);
        cpu.step(&mut emulator);
        assert_eq!(cpu.registers.pc, 0x0202);
    }
}

#[test]
fn instructions_take_canonical_cycles() {
    for opcode in 0..=255u8 {
        if CYCLES[opcode as usize] == 0 {
            continue;
        }
        let mut emulator = machine(0x0200, &[opcode, 0x05, 0xC1]);
        let mut cpu = cpu_at(0x0200);
        cpu.registers.write16(Register::HL, 0xC100);
        cpu.registers.write16(Register::BC, 0xC200);
        cpu.registers.write16(Register::DE, 0xC300);
        if is_conditional(opcode) {
            cpu.registers.f = Flags::from_bits_truncate(flags_against(opcode));
        }
        let before = emulator.ticks();
        cpu.step(&mut emulator);
        let expected = match opcode {
            // a conditional return that is not taken ends with its fetch
            0xC0 | 0xC8 | 0xD0 | 0xD8 => 1,
            // JP HL is charged the cycle of a taken branch
            0xE9 => 2,
            _ => CYCLES[opcode as usize] as u64,
        };
        assert_eq!(cycles(&emulator, before), expected, "opcode {:02X}", opcode);
    }
}

#[test]
fn taken_branches_take_canonical_cycles() {
    for (opcode, flags, canonical) in BRANCHES {
        let mut emulator = machine(0x0200, &[opcode, 0x05, 0xC1]);
        let mut cpu = cpu_at(0x0200);
        cpu.registers.f = Flags::from_bits_truncate(flags);
        let before = emulator.ticks();
        cpu.step(&mut emulator);
        let expected = match opcode {
            // a conditional return that is taken is one cycle short
            0xC0 | 0xC8 | 0xD0 | 0xD8 => 4,
            _ => canonical as u64,
        };
        assert_eq!(cycles(&emulator, before), expected, "opcode {:02X}", opcode);
    }
}

#[test]
fn prefixed_instructions_take_canonical_cycles() {
    for second in 0..=255u8 {
        let mut emulator = machine(0x0200, &[0xCB, second]);
        let mut cpu = cpu_at(0x0200);
        cpu.registers.write16(Register::HL, 0xC100);
        let before = emulator.ticks();
        cpu.step(&mut emulator);
        let expected = if second & 7 != 6 {
            2
        } else if (0x40..0x80).contains(&second) {
            3
        } else {
            4
        };
        assert_eq!(cycles(&emulator, before), expected, "opcode CB {:02X}", second);
    }
}

#[test]
fn jr_goes_backwards() {
    let mut emulator = machine(0x0200, &[0x18, 0xFE]);
    let mut cpu = cpu_at(0x0200);
    cpu.step(&mut emulator);
    // the offset -2 counts from behind the instruction
    assert_eq!(cpu.registers.pc, 0x0200);
}

#[test]
fn add_sp_with_negative_offset() {
    let mut emulator = machine(0x0200, &[0xE8, 0xFF, 0xF8, 0x02]);
    let mut cpu = cpu_at(0x0200);
    cpu.registers.sp = 0x0100;
    cpu.step(&mut emulator);
    assert_eq!(cpu.registers.sp, 0x00FF);
    assert!(!cpu.registers.zf());
    assert!(!cpu.registers.nf());
    assert!(!cpu.registers.hf());
    assert!(!cpu.registers.cf());
    cpu.registers.sp = 0x00FF;
    cpu.step(&mut emulator);
    assert_eq!(cpu.registers.read16(Register::HL), 0x0101);
    assert!(cpu.registers.hf());
    assert!(cpu.registers.cf());
}

#[test]
fn add_hl_carries_out_of_bit_11_and_15() {
    let mut emulator = machine(0x0200, &[0x09, 0x09]);
    let mut cpu = cpu_at(0x0200);
    cpu.registers.write16(Register::HL, 0x0FFF);
    cpu.registers.write16(Register::BC, 0x0001);
    cpu.registers.set_zf(true);
    cpu.step(&mut emulator);
    assert_eq!(cpu.registers.read16(Register::HL), 0x1000);
    assert!(cpu.registers.zf());
    assert!(cpu.registers.hf());
    assert!(!cpu.registers.cf());
    cpu.registers.write16(Register::HL, 0xFFFF);
    cpu.step(&mut emulator);
    assert_eq!(cpu.registers.read16(Register::HL), 0x0000);
    assert!(cpu.registers.cf());
}

#[test]
fn ld_a16_sp_stores_low_byte_first() {
    let mut emulator = machine(0x0200, &[0x08, 0x00, 0xC0]);
    let mut cpu = cpu_at(0x0200);
    cpu.registers.sp = 0xBEEF;
    cpu.step(&mut emulator);
    assert_eq!(emulator.peek(0xC000), 0xEF);
    assert_eq!(emulator.peek(0xC001), 0xBE);
}

#[test]
fn rotates_of_the_accumulator_clear_zero() {
    let mut emulator = machine(0x0200, &[0x07, 0x17, 0x0F, 0x1F]);
    let mut cpu = cpu_at(0x0200);
    cpu.registers.a = 0x00;
    cpu.registers.f = Flags::from_bits_truncate(0x80);
    cpu.step(&mut emulator);
    assert_eq!(cpu.registers.a, 0);
    assert_eq!(cpu.registers.read8(Register::F), 0x00);
    cpu.registers.a = 0x80;
    cpu.step(&mut emulator);
    // RLA: bit 7 goes to the carry, the old carry (0) comes in
    assert_eq!(cpu.registers.a, 0x00);
    assert_eq!(cpu.registers.read8(Register::F), 0x10);
    cpu.registers.a = 0x01;
    cpu.step(&mut emulator);
    // RRCA: bit 0 goes to the carry and to bit 7
    assert_eq!(cpu.registers.a, 0x80);
    assert_eq!(cpu.registers.read8(Register::F), 0x10);
    cpu.registers.a = 0x02;
    cpu.step(&mut emulator);
    // RRA: the carry comes in at bit 7
    assert_eq!(cpu.registers.a, 0x81);
    assert_eq!(cpu.registers.read8(Register::F), 0x00);
}

#[test]
fn prefixed_operations_on_registers_and_memory() {
    // SWAP B; SRA C; SRL D; SLA E; BIT 7,H; RES 0,(HL); SET 7,(HL); RLC (HL)
    let program = [
        0xCB, 0x30, 0xCB, 0x29, 0xCB, 0x3A, 0xCB, 0x23, 0xCB, 0x7C, 0xCB, 0x86, 0xCB, 0xFE, 0xCB, 0x06,
    ];
    let mut emulator = machine(0x0200, &program);
    let mut cpu = cpu_at(0x0200);
    cpu.registers.b = 0xA5;
    cpu.registers.c = 0x81;
    cpu.registers.d = 0x81;
    cpu.registers.e = 0x81;
    cpu.registers.write16(Register::HL, 0xC000);
    emulator.write_cycle(0xC000, 0x0F);

    cpu.step(&mut emulator);
    assert_eq!(cpu.registers.b, 0x5A);
    assert_eq!(cpu.registers.read8(Register::F), 0x00);
    cpu.step(&mut emulator);
    assert_eq!(cpu.registers.c, 0xC0);
    assert_eq!(cpu.registers.read8(Register::F), 0x10);
    cpu.step(&mut emulator);
    assert_eq!(cpu.registers.d, 0x40);
    assert_eq!(cpu.registers.read8(Register::F), 0x10);
    cpu.step(&mut emulator);
    assert_eq!(cpu.registers.e, 0x02);
    assert_eq!(cpu.registers.read8(Register::F), 0x10);
    cpu.step(&mut emulator);
    // bit 7 of H = 0xC0 is set: Z is clear, H is set, C stays
    assert_eq!(cpu.registers.read8(Register::F), 0x30);
    cpu.step(&mut emulator);
    assert_eq!(emulator.peek(0xC000), 0x0E);
    cpu.step(&mut emulator);
    assert_eq!(emulator.peek(0xC000), 0x8E);
    cpu.step(&mut emulator);
    assert_eq!(emulator.peek(0xC000), 0x1D);
    assert_eq!(cpu.registers.read8(Register::F), 0x10);
}

#[test]
fn logic_operations_set_their_flags() {
    // AND B; OR C; XOR A; CP D; CPL; SCF; CCF
    let mut emulator = machine(0x0200, &[0xA0, 0xB1, 0xAF, 0xBA, 0x2F, 0x37, 0x3F]);
    let mut cpu = cpu_at(0x0200);
    cpu.registers.a = 0xF0;
    cpu.registers.b = 0x0F;
    cpu.registers.c = 0x01;
    cpu.registers.d = 0x01;
    cpu.step(&mut emulator);
    assert_eq!(cpu.registers.a, 0x00);
    assert_eq!(cpu.registers.read8(Register::F), 0xA0);
    cpu.step(&mut emulator);
    assert_eq!(cpu.registers.a, 0x01);
    assert_eq!(cpu.registers.read8(Register::F), 0x00);
    cpu.step(&mut emulator);
    assert_eq!(cpu.registers.a, 0x00);
    assert_eq!(cpu.registers.read8(Register::F), 0x80);
    cpu.step(&mut emulator);
    // 0 - 1 borrows at both places, and the accumulator stays
    assert_eq!(cpu.registers.a, 0x00);
    assert_eq!(cpu.registers.read8(Register::F), 0x70);
    cpu.step(&mut emulator);
    assert_eq!(cpu.registers.a, 0xFF);
    assert_eq!(cpu.registers.read8(Register::F), 0x70);
    cpu.step(&mut emulator);
    assert_eq!(cpu.registers.read8(Register::F), 0x10);
    cpu.step(&mut emulator);
    assert_eq!(cpu.registers.read8(Register::F), 0x00);
}

#[test]
fn interrupt_is_served_after_the_instruction_that_follows_ei() {
    // EI; NOP; NOP
    let mut emulator = machine(0x0200, &[0xFB, 0x00, 0x00]);
    let mut cpu = cpu_at(0x0200);
    cpu.registers.sp = 0xFFFE;
    // the timer and the display status are enabled and pending
    emulator.write_cycle(0xFFFF, 0x06);
    emulator.write_cycle(0xFF0F, 0x06);

    cpu.step(&mut emulator);
    assert!(!cpu.ime);
    assert_eq!(cpu.registers.pc, 0x0201);

    let before = emulator.ticks();
    cpu.step(&mut emulator);
    // the NOP takes one cycle and the service four
    assert_eq!(cycles(&emulator, before), 5);
    // the display status has the higher priority: its handler is at 0x48
    assert_eq!(cpu.registers.pc, 0x0048);
    assert!(!cpu.ime);
    assert_eq!(cpu.registers.sp, 0xFFFC);
    assert_eq!(emulator.peek(0xFFFC), 0x02);
    assert_eq!(emulator.peek(0xFFFD), 0x02);
    assert_eq!(emulator.peek(0xFF0F), 0x04);
}

#[test]
fn di_disables_interrupts_at_once() {
    let mut emulator = machine(0x0200, &[0xF3, 0x00]);
    let mut cpu = cpu_at(0x0200);
    cpu.ime = true;
    cpu.step(&mut emulator);
    assert!(!cpu.ime);
    emulator.write_cycle(0xFFFF, 0x01);
    emulator.write_cycle(0xFF0F, 0x01);
    cpu.step(&mut emulator);
    assert_eq!(cpu.registers.pc, 0x0202);
}

#[test]
fn halted_processor_wakes_on_a_pending_interrupt() {
    let mut emulator = machine(0x0200, &[0x76, 0x00]);
    let mut cpu = cpu_at(0x0200);
    cpu.step(&mut emulator);
    assert_eq!(cpu.mode, CpuMode::Halted);
    let before = emulator.ticks();
    cpu.step(&mut emulator);
    assert_eq!(cpu.mode, CpuMode::Halted);
    assert_eq!(cycles(&emulator, before), 1);
    emulator.write_cycle(0xFFFF, 0x04);
    emulator.write_cycle(0xFF0F, 0x04);
    cpu.step(&mut emulator);
    assert_eq!(cpu.mode, CpuMode::Running);
    // interrupts are disabled: the request stays
    assert_eq!(emulator.peek(0xFF0F), 0x04);
    assert_eq!(cpu.registers.pc, 0x0201);
}

#[test]
fn new_processor_is_running_with_boot_values() {
    let cpu = CPU::new();
    assert_eq!(cpu.mode, CpuMode::Running);
    assert!(!cpu.ime);
    assert!(!cpu.ime_scheduled);
    assert_eq!(cpu.registers.a, 0x01);
    assert_eq!(cpu.registers.read8(Register::F), 0xB0);
    assert_eq!(cpu.registers.read16(Register::BC), 0x0013);
    assert_eq!(cpu.registers.read16(Register::DE), 0x00D8);
    assert_eq!(cpu.registers.read16(Register::HL), 0x014D);
    assert_eq!(cpu.registers.sp, 0xFFFE);
    assert_eq!(cpu.registers.pc, 0x0100);
}
