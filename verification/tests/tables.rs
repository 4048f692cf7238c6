use dmgemu::cart::{CartridgeHeader, HeaderError};
use dmgemu::cpu::alu::{add8, add_signed, decimal_adjust, sub8};
use dmgemu::cpu::format::{mnemonic, register_name};
use dmgemu::cpu::instructions::{AddressMode, Condition, Instruction, InstructionType};
use dmgemu::cpu::register_file::{Flags, Register, RegisterFile};
use dmgemu::cpu::CPU;
use dmgemu::gui::{
    action_for, color_from_u32, pace, pixel_origin, tile_origin, tile_pixel, FramePace, GuiAction, Rgba,
};
use dmgemu::ppu::PPU;

#[test]
fn f_never_shows_a_low_nibble() {
    let mut regs = RegisterFile::new();
    for value in 0..=255u8 {
        regs.write8(Register::F, value);
        assert_eq!(regs.read8(Register::F), value & 0xF0);
        assert_eq!(regs.read8(Register::F) & 0x0F, 0);
        regs.write16(Register::AF, 0x1200 | value as u16);
        assert_eq!(regs.read8(Register::F) & 0x0F, 0);
        assert_eq!(regs.zf(), value & 0x80 != 0);
        assert_eq!(regs.nf(), value & 0x40 != 0);
        assert_eq!(regs.hf(), value & 0x20 != 0);
        assert_eq!(regs.cf(), value & 0x10 != 0);
    }
    assert_eq!(Flags::from_bits_truncate(0xFF).bits(), 0xF0);
}

#[test]
fn registers_as_text() {
    let regs = RegisterFile::new();
    assert_eq!(
        regs.to_text(),
        "PC: 0100 SP: FFFE A: 0001 F: 00B0 B: 0000 C: 0013 D: 0000 E: 00D8 H: 0001 L: 004D"
    );
    assert_eq!(
        CPU::new().to_text(),
        "CPU register file:\nPC: 0100 SP: FFFE A: 0001 F: 00B0 B: 0000 C: 0013 D: 0000 E: 00D8 H: 0001 L: 004D"
    );
}

#[test]
fn pairs_round_trip() {
    let mut regs = RegisterFile::new();
    for value in [0x0000u16, 0x0001, 0x00FF, 0x0100, 0x1234, 0x8000, 0xABCD, 0xFFFF] {
        for pair in [Register::BC, Register::DE, Register::HL, Register::SP, Register::PC] {
            regs.write16(pair, value);
            assert_eq!(regs.read16(pair), value);
        }
        regs.write16(Register::AF, value);
        assert_eq!(regs.read16(Register::AF), value & 0xFFF0);
    }
    regs.write16(Register::BC, 0x1234);
    assert_eq!(regs.read8(Register::B), 0x12);
    assert_eq!(regs.read8(Register::C), 0x34);
    regs.write8(Register::H, 0xAB);
    regs.write8(Register::L, 0xCD);
    assert_eq!(regs.read16(Register::HL), 0xABCD);
    assert!(Register::HL.is_16bit());
    assert!(!Register::L.is_16bit());
}

#[test]
fn flag_setters_touch_one_flag() {
    let mut regs = RegisterFile::new();
    regs.write8(Register::F, 0x00);
    regs.set_zf(true);
    assert_eq!(regs.read8(Register::F), 0x80);
    regs.set_nf(true);
    assert_eq!(regs.read8(Register::F), 0xC0);
    regs.set_hf(true);
    assert_eq!(regs.read8(Register::F), 0xE0);
    regs.set_cf(true);
    assert_eq!(regs.read8(Register::F), 0xF0);
    regs.set_nf(false);
    assert_eq!(regs.read8(Register::F), 0xB0);
}

#[test]
fn carries_are_those_of_the_bits() {
    for a in 0..=255u8 {
        for v in 0..=255u8 {
            for carry in [false, true] {
                let c = carry as u16;
                let (sum, flags) = add8(a, v, carry);
                let wide = a as u16 + v as u16 + c;
                assert_eq!(sum, wide as u8);
                assert_eq!(flags.zero, sum == 0);
                assert!(!flags.subtract);
                assert_eq!(flags.half_carry, (a ^ v ^ sum) & 0x10 != 0);
                assert_eq!(flags.carry, wide & 0x100 != 0);

                let (difference, flags) = sub8(a, v, carry);
                let wide = (a as u16).wrapping_sub(v as u16).wrapping_sub(c);
                assert_eq!(difference, wide as u8);
                assert_eq!(flags.zero, difference == 0);
                assert!(flags.subtract);
                assert_eq!(flags.half_carry, (a ^ v ^ difference) & 0x10 != 0);
                assert_eq!(flags.carry, wide & 0x100 != 0);
            }
        }
    }
}

#[test]
fn decimal_adjust_gives_two_digits() {
    // every sum of two two-digit numbers comes out as its decimal digits
    for x in 0..100u8 {
        for y in 0..100u8 {
            let bcd = |n: u8| ((n / 10) << 4) | (n % 10);
            let (sum, flags) = add8(bcd(x), bcd(y), false);
            let (adjusted, after) = decimal_adjust(sum, flags);
            assert_eq!(adjusted, bcd((x + y) % 100), "{} + {}", x, y);
            assert_eq!(after.carry, x + y > 99);
            assert!(!after.half_carry);
        }
    }
}

#[test]
fn signed_offsets_wrap() {
    assert_eq!(add_signed(0x0000, 0xFF), 0xFFFF);
    assert_eq!(add_signed(0xFFFF, 0x01), 0x0000);
    assert_eq!(add_signed(0x1000, 0x80), 0x0F80);
    assert_eq!(add_signed(0x1000, 0x7F), 0x107F);
}

#[test]
fn unprefixed_descriptors() {
    let i = Instruction::from_opcode(0x00);
    assert_eq!(i, Instruction { itype: InstructionType::NOP, mode: AddressMode::IMP, reg1: None, reg2: None, cond: None });
    let i = Instruction::from_opcode(0x01);
    assert_eq!((i.itype, i.mode, i.reg1, i.reg2), (InstructionType::LD, AddressMode::R_D16, Some(Register::BC), None));
    let i = Instruction::from_opcode(0x36);
    assert_eq!((i.itype, i.mode, i.reg1, i.reg2), (InstructionType::LD, AddressMode::MR_D8, Some(Register::HL), None));
    let i = Instruction::from_opcode(0x76);
    assert_eq!((i.itype, i.mode), (InstructionType::HALT, AddressMode::IMP));
    let i = Instruction::from_opcode(0x7E);
    assert_eq!((i.itype, i.mode, i.reg1, i.reg2), (InstructionType::LD, AddressMode::R_MR, Some(Register::A), Some(Register::HL)));
    let i = Instruction::from_opcode(0xBE);
    assert_eq!((i.itype, i.mode, i.reg1, i.reg2), (InstructionType::CP, AddressMode::R_MR, Some(Register::A), Some(Register::HL)));
    let i = Instruction::from_opcode(0xCC);
    assert_eq!((i.itype, i.mode, i.cond), (InstructionType::CALL, AddressMode::D16, Some(Condition::Z)));
    let i = Instruction::from_opcode(0xD0);
    assert_eq!((i.itype, i.mode, i.cond), (InstructionType::RET, AddressMode::IMP, Some(Condition::NC)));
    let i = Instruction::from_opcode(0xE2);
    assert_eq!((i.itype, i.mode, i.reg1, i.reg2), (InstructionType::LDH, AddressMode::MR_R, Some(Register::C), Some(Register::A)));
    let i = Instruction::from_opcode(0xF1);
    assert_eq!((i.itype, i.mode, i.reg1), (InstructionType::POP, AddressMode::R, Some(Register::AF)));
    let i = Instruction::from_opcode(0xF8);
    assert_eq!((i.itype, i.mode, i.reg1, i.reg2), (InstructionType::LD, AddressMode::HL_SPR, Some(Register::HL), Some(Register::SP)));
    let i = Instruction::from_opcode(0xFF);
    assert_eq!((i.itype, i.mode), (InstructionType::RST, AddressMode::RST));
    assert_eq!(Instruction::default().itype, InstructionType::NONE);
    let legal = (0..=255u8).filter(|o| Instruction::is_legal(*o)).count();
    assert_eq!(legal, 244);
    assert!(!Instruction::is_legal(0xCB));
}

#[test]
fn prefixed_descriptors_encode_back() {
    let kinds = [
        InstructionType::RLC,
        InstructionType::RRC,
        InstructionType::RL,
        InstructionType::RR,
        InstructionType::SLA,
        InstructionType::SRA,
        InstructionType::SWAP,
        InstructionType::SRL,
    ];
    let operands = [
        Register::B,
        Register::C,
        Register::D,
        Register::E,
        Register::H,
        Register::L,
        Register::HL,
        Register::A,
    ];
    for opcode in 0..=255u8 {
        let i = Instruction::from_opcode_prefixed(opcode);
        let expected = match opcode >> 6 {
            0 => kinds[(opcode >> 3) as usize],
            1 => InstructionType::BIT,
            2 => InstructionType::RES,
            _ => InstructionType::SET,
        };
        assert_eq!(i.itype, expected);
        assert_eq!(i.reg1, Some(operands[(opcode & 7) as usize]));
        assert_eq!(i.mode, if opcode & 7 == 6 { AddressMode::MR } else { AddressMode::R });
        assert_eq!(i.reg2, None);
        assert!(i.cond.is_none());
        assert_eq!(i.encode_prefixed((opcode >> 3) & 7), Some(opcode));
    }
    assert_eq!(Instruction::from_opcode(0x00).encode_prefixed(0), None);
    let odd = Instruction { itype: InstructionType::RLC, mode: AddressMode::R, reg1: Some(Register::HL), reg2: None, cond: None };
    assert_eq!(odd.encode_prefixed(0), None);
}

#[test]
fn instructions_as_text() {
    assert_eq!(Instruction::from_opcode(0x00).fmt_with_data(0), "NOP");
    assert_eq!(Instruction::from_opcode(0x18).fmt_with_data(0x05), "JR $05");
    assert_eq!(Instruction::from_opcode(0xC3).fmt_with_data(0x0150), "JP $0150");
    assert_eq!(Instruction::from_opcode(0x04).fmt_with_data(0), "INC B");
    assert_eq!(Instruction::from_opcode(0x41).fmt_with_data(0), "LD B, C");
    assert_eq!(Instruction::from_opcode(0x06).fmt_with_data(0xAB), "LD B, $AB");
    assert_eq!(Instruction::from_opcode(0xF0).fmt_with_data(0x44), "LDH A, $44");
    assert_eq!(Instruction::from_opcode(0x21).fmt_with_data(0x00FF), "LD HL, $00FF");
    assert_eq!(Instruction::from_opcode(0xFA).fmt_with_data(0xC000), "LD A, $C000");
    assert_eq!(Instruction::from_opcode(0xE0).fmt_with_data(0x47), "LDH $47, A");
    assert_eq!(Instruction::from_opcode(0xEA).fmt_with_data(0xC123), "LD ($C123), A");
    assert_eq!(Instruction::from_opcode(0x34).fmt_with_data(0), "INC (HL)");
    assert_eq!(Instruction::from_opcode(0x70).fmt_with_data(0), "LD (HL), B");
    assert_eq!(Instruction::from_opcode(0x0A).fmt_with_data(0), "LD A, (BC)");
    assert_eq!(Instruction::from_opcode(0x36).fmt_with_data(0x07), "LD (HL), $07");
    assert_eq!(Instruction::from_opcode(0x2A).fmt_with_data(0), "LD A, (HL+)");
    assert_eq!(Instruction::from_opcode(0x22).fmt_with_data(0), "LD (HL+), A");
    assert_eq!(Instruction::from_opcode(0x3A).fmt_with_data(0), "LD A, (HL-)");
    assert_eq!(Instruction::from_opcode(0x32).fmt_with_data(0), "LD (HL-), A");
    assert_eq!(Instruction::from_opcode(0xF8).fmt_with_data(0x01FE), "LD HL, SP+254");
    assert_eq!(Instruction::from_opcode(0xF8).fmt_with_data(0x0007), "LD HL, SP+7");
    assert_eq!(Instruction::from_opcode(0xF8).fmt_with_data(0x0010), "LD HL, SP+16");
    assert_eq!(Instruction::from_opcode(0xEF).fmt_with_data(0x28), "RST $28");
    assert_eq!(Instruction::from_opcode(0x18).fmt_with_data(0x123), "JR $123");
    assert_eq!(Instruction::from_opcode_prefixed(0x7E).fmt_with_data(0), "BIT (HL)");
    assert_eq!(mnemonic(InstructionType::SWAP), "SWAP");
    assert_eq!(register_name(Register::AF), "AF");
}

fn image(size: usize) -> Vec<u8> {
    let mut rom = vec![0u8; size];
    for (i, byte) in b"TETRIS".iter().enumerate() {
        rom[0x134 + i] = *byte;
    }
    rom[0x104] = 0xCE;
    rom[0x133] = 0x3E;
    rom[0x143] = 0x80;
    rom[0x146] = 0x03;
    rom[0x147] = 0x13;
    rom[0x148] = 0x02;
    rom[0x149] = 0x03;
    rom[0x14A] = 0x01;
    rom[0x14B] = 0x33;
    rom[0x144] = b'0';
    rom[0x145] = b'1';
    rom[0x14C] = 0x07;
    rom[0x14D] = 0x5A;
    rom[0x14E] = 0x12;
    rom[0x14F] = 0x34;
    rom
}

#[test]
fn header_is_read() {
    let rom = image(0x8000);
    let header = CartridgeHeader::load(&rom).unwrap();
    assert_eq!(header.title, b"TETRIS".to_vec());
    assert_eq!(header.destination, "Overseas");
    assert_eq!(header.licensee, "Nintendo Research & Development 1");
    assert!(header.cgb_flag);
    assert!(header.sgb_flag);
    assert_eq!(header.rom_type, 0x13);
    assert_eq!(header.rom_type_name, "MBC3+RAM+BATTERY");
    assert_eq!(header.rom_size, 128 * 1024);
    assert_eq!(header.ram_size, 32 * 1024);
    assert_eq!(header.rom_version, 0x07);
    assert_eq!(header.header_checksum, 0x5A);
    assert_eq!(header.global_checksum, 0x1234);
    assert_eq!(header.nintendo_logo[0], 0xCE);
    assert_eq!(header.nintendo_logo[47], 0x3E);
}

#[test]
fn header_with_old_licensee_and_long_title() {
    let mut rom = image(0x150);
    for i in 0..16 {
        rom[0x134 + i] = b'A' + i as u8;
    }
    rom[0x14A] = 0x00;
    rom[0x14B] = 0x01;
    rom[0x147] = 0x04;
    rom[0x148] = 0x54;
    rom[0x149] = 0x05;
    let header = CartridgeHeader::load(&rom).unwrap();
    assert_eq!(header.title, b"ABCDEFGHIJKLMNOP".to_vec());
    assert_eq!(header.destination, "Japan");
    assert_eq!(header.licensee, "Nintendo");
    assert_eq!(header.rom_type_name, "");
    assert_eq!(header.rom_size, 1_572_864);
    assert_eq!(header.ram_size, 64 * 1024);
    assert!(!header.cgb_flag);
    rom[0x14B] = 0x02;
    assert_eq!(CartridgeHeader::load(&rom).unwrap().licensee, "");
    rom[0x14B] = 0x33;
    rom[0x144] = b'Z';
    assert_eq!(CartridgeHeader::load(&rom).unwrap().licensee, "");
}

#[test]
fn header_errors() {
    assert_eq!(CartridgeHeader::load(&vec![0u8; 0x14F]).unwrap_err(), HeaderError::TooShort);
    assert_eq!(CartridgeHeader::load(&Vec::new()).unwrap_err(), HeaderError::TooShort);
    let mut rom = image(0x150);
    rom[0x148] = 0x09;
    assert_eq!(CartridgeHeader::load(&rom).unwrap_err(), HeaderError::UnknownRomSize);
    rom[0x149] = 0x06;
    assert_eq!(CartridgeHeader::load(&rom).unwrap_err(), HeaderError::UnknownRomSize);
    rom[0x148] = 0x00;
    assert_eq!(CartridgeHeader::load(&rom).unwrap_err(), HeaderError::UnknownRamSize);
}

#[test]
fn header_checksum_counts_down() {
    let rom = vec![0u8; 0x150];
    // twenty-five bytes, each of which takes one off
    assert_eq!(CartridgeHeader::checksum(&rom), 0xE7);
    let rom = image(0x150);
    let mut sum = 0u8;
    for i in 0x134..=0x14C {
        sum = sum.wrapping_sub(rom[i]).wrapping_sub(1);
    }
    assert_eq!(CartridgeHeader::checksum(&rom), sum);
}

#[test]
fn colours_split_into_channels() {
    assert_eq!(color_from_u32(0xFFAAAAAA), Rgba { r: 0xAA, g: 0xAA, b: 0xAA, a: 0xFF });
    assert_eq!(color_from_u32(0x12345678), Rgba { r: 0x34, g: 0x56, b: 0x78, a: 0x12 });
}

#[test]
fn debug_window_layout() {
    assert_eq!(tile_origin(0), (0, 0));
    assert_eq!(tile_origin(1), (45, 0));
    assert_eq!(tile_origin(15), (675, 0));
    assert_eq!(tile_origin(16), (0, 45));
    assert_eq!(tile_origin(383), (675, 23 * 45));
    assert_eq!(pixel_origin(45, 90, 2, 7), (80, 100));
    let mut ppu = PPU::new();
    // row 3 of tile 2: the first byte gives the high bit
    ppu.vram_write(0x8000 + 2 * 16 + 6, 0b1100_0000);
    ppu.vram_write(0x8000 + 2 * 16 + 7, 0b1010_0000);
    assert_eq!(tile_pixel(&ppu, 2, 3, 0), 0xFF000000);
    assert_eq!(tile_pixel(&ppu, 2, 3, 1), 0xFF555555);
    assert_eq!(tile_pixel(&ppu, 2, 3, 2), 0xFFAAAAAA);
    assert_eq!(tile_pixel(&ppu, 2, 3, 3), 0xFFFFFFFF);
}

#[test]
fn last_event_decides() {
    assert_eq!(action_for(&vec![]), GuiAction::Continue);
    assert_eq!(action_for(&vec![true]), GuiAction::Exit);
    assert_eq!(action_for(&vec![true, false]), GuiAction::Continue);
    assert_eq!(action_for(&vec![false, false, true]), GuiAction::Exit);
}

#[test]
fn frames_are_paced_to_sixteen_milliseconds() {
    assert_eq!(pace(4_000_000, 500_000_000, 7), FramePace { sleep_ns: 12_000_000, report: false, frames: 8 });
    assert_eq!(pace(15_999_999, 0, 0), FramePace { sleep_ns: 1, report: false, frames: 1 });
    assert_eq!(pace(16_000_000, 0, 0).sleep_ns, 0);
    assert_eq!(pace(40_000_000, 0, 0).sleep_ns, 0);
    // a report is due after more than 1000 whole milliseconds
    assert!(!pace(0, 1_000_999_999, 59).report);
    assert_eq!(pace(0, 1_001_000_000, 59), FramePace { sleep_ns: 16_000_000, report: true, frames: 1 });
    assert_eq!(pace(0, 2_000_000_000, u32::MAX).frames, 1);
}
