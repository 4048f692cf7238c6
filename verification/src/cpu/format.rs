//! Instructions as text, for logs and disassembly.

use vstd::prelude::*;
use vstd::string::*;
use super::instructions::{AddressMode, Instruction, InstructionType};
use super::register_file::{Register, RegisterFile};
use super::CPU;
use crate::bits::lemma_word_bits;

verus! {

/// The name of a register.
pub open spec fn spec_register_name(register: Register) -> &'static str {
    match register {
        Register::A => "A",
        Register::F => "F",
        Register::B => "B",
        Register::C => "C",
        Register::D => "D",
        Register::E => "E",
        Register::H => "H",
        Register::L => "L",
        Register::AF => "AF",
        Register::BC => "BC",
        Register::DE => "DE",
        Register::HL => "HL",
        Register::SP => "SP",
        Register::PC => "PC",
    }
}

/// The mnemonic of an operation.
pub open spec fn spec_mnemonic(itype: InstructionType) -> &'static str {
    match itype {
        InstructionType::NONE => "NONE",
        InstructionType::NOP => "NOP",
        InstructionType::LD => "LD",
        InstructionType::INC => "INC",
        InstructionType::DEC => "DEC",
        InstructionType::RLCA => "RLCA",
        InstructionType::ADD => "ADD",
        InstructionType::RRCA => "RRCA",
        InstructionType::STOP => "STOP",
        InstructionType::RLA => "RLA",
        InstructionType::JR => "JR",
        InstructionType::RRA => "RRA",
        InstructionType::DAA => "DAA",
        InstructionType::CPL => "CPL",
        InstructionType::SCF => "SCF",
        InstructionType::CCF => "CCF",
        InstructionType::HALT => "HALT",
        InstructionType::ADC => "ADC",
        InstructionType::SUB => "SUB",
        InstructionType::SBC => "SBC",
        InstructionType::AND => "AND",
        InstructionType::XOR => "XOR",
        InstructionType::OR => "OR",
        InstructionType::CP => "CP",
        InstructionType::POP => "POP",
        InstructionType::JP => "JP",
        InstructionType::PUSH => "PUSH",
        InstructionType::RET => "RET",
        InstructionType::CB => "CB",
        InstructionType::CALL => "CALL",
        InstructionType::RETI => "RETI",
        InstructionType::LDH => "LDH",
        InstructionType::JPHL => "JPHL",
        InstructionType::DI => "DI",
        InstructionType::EI => "EI",
        InstructionType::RST => "RST",
        InstructionType::ERR => "ERR",
        InstructionType::RLC => "RLC",
        InstructionType::RRC => "RRC",
        InstructionType::RL => "RL",
        InstructionType::RR => "RR",
        InstructionType::SLA => "SLA",
        InstructionType::SRA => "SRA",
        InstructionType::SWAP => "SWAP",
        InstructionType::SRL => "SRL",
        InstructionType::BIT => "BIT",
        InstructionType::RES => "RES",
        InstructionType::SET => "SET",
    }
}

/// The digit for a number below sixteen; capital letters stand for ten to
/// fifteen.
pub open spec fn spec_digit(n: int) -> &'static str {
    if n == 0 {
        "0"
    } else if n == 1 {
        "1"
    } else if n == 2 {
        "2"
    } else if n == 3 {
        "3"
    } else if n == 4 {
        "4"
    } else if n == 5 {
        "5"
    } else if n == 6 {
        "6"
    } else if n == 7 {
        "7"
    } else if n == 8 {
        "8"
    } else if n == 9 {
        "9"
    } else if n == 10 {
        "A"
    } else if n == 11 {
        "B"
    } else if n == 12 {
        "C"
    } else if n == 13 {
        "D"
    } else if n == 14 {
        "E"
    } else {
        "F"
    }
}

/// The number in hexadecimal, with zeros in front up to `width` digits (two
/// or four).
pub open spec fn spec_hex(value: u16, width: int) -> Seq<char> {
    (if value >= 0x1000 || width >= 4 {
        spec_digit(value as int / 4096)@
    } else {
        Seq::empty()
    }) + (if value >= 0x100 || width >= 3 {
        spec_digit((value as int / 256) % 16)@
    } else {
        Seq::empty()
    }) + spec_digit((value as int / 16) % 16)@ + spec_digit(value as int % 16)@
}

/// The number in decimal.
pub open spec fn spec_decimal(value: u8) -> Seq<char> {
    (if value >= 100 {
        spec_digit(value as int / 100)@
    } else {
        Seq::empty()
    }) + (if value >= 10 {
        spec_digit((value as int / 10) % 10)@
    } else {
        Seq::empty()
    }) + spec_digit(value as int % 10)@
}

/// The registers that the text of an instruction names: every mode with a
/// register in it needs that register.
pub open spec fn has_operands(i: Instruction) -> bool {
    match i.mode {
        AddressMode::IMP | AddressMode::D8 | AddressMode::D16 | AddressMode::RST => true,
        AddressMode::R
        | AddressMode::R_A8
        | AddressMode::R_D8
        | AddressMode::R_A16
        | AddressMode::R_D16
        | AddressMode::MR
        | AddressMode::MR_D8
        | AddressMode::HL_SPR => i.reg1 is Some,
        AddressMode::A8_R | AddressMode::A16_R | AddressMode::D16_R => i.reg2 is Some,
        _ => i.reg1 is Some && i.reg2 is Some,
    }
}

/// The text of an instruction with its data: the mnemonic, then the
/// operands. A register stands by its name, in brackets where it gives an
/// address; data stands in hexadecimal behind a `$`, in two digits if the
/// mode takes a byte and in four if it takes a word.
pub open spec fn spec_fmt_with_data(i: Instruction, data: u16) -> Seq<char> {
    let op = spec_mnemonic(i.itype)@;
    let r1 = spec_register_name(i.reg1->0)@;
    let r2 = spec_register_name(i.reg2->0)@;
    match i.mode {
        AddressMode::IMP => op,
        AddressMode::D8 | AddressMode::RST => op + " $"@ + spec_hex(data, 2),
        AddressMode::D16 => op + " $"@ + spec_hex(data, 4),
        AddressMode::R => op + " "@ + r1,
        AddressMode::R_R => op + " "@ + r1 + ", "@ + r2,
        AddressMode::R_A8 | AddressMode::R_D8 => op + " "@ + r1 + ", $"@ + spec_hex(data, 2),
        AddressMode::R_A16 | AddressMode::R_D16 => op + " "@ + r1 + ", $"@ + spec_hex(data, 4),
        AddressMode::A8_R => op + " $"@ + spec_hex(data, 2) + ", "@ + r2,
        AddressMode::A16_R | AddressMode::D16_R => op + " ($"@ + spec_hex(data, 4) + "), "@ + r2,
        AddressMode::MR => op + " ("@ + r1 + ")"@,
        AddressMode::MR_R => op + " ("@ + r1 + "), "@ + r2,
        AddressMode::R_MR => op + " "@ + r1 + ", ("@ + r2 + ")"@,
        AddressMode::MR_D8 => op + " ("@ + r1 + "), $"@ + spec_hex(data, 2),
        AddressMode::R_HLI => op + " "@ + r1 + ", ("@ + r2 + "+)"@,
        AddressMode::HLI_R => op + " ("@ + r1 + "+), "@ + r2,
        AddressMode::R_HLD => op + " "@ + r1 + ", ("@ + r2 + "-)"@,
        AddressMode::HLD_R => op + " ("@ + r1 + "-), "@ + r2,
        AddressMode::HL_SPR => op + " "@ + r1 + ", SP+"@ + spec_decimal((data % 256) as u8),
    }
}

pub fn register_name(register: Register) -> (name: &'static str)
    ensures
        name == spec_register_name(register),
{
    match register {
        Register::A => "A",
        Register::F => "F",
        Register::B => "B",
        Register::C => "C",
        Register::D => "D",
        Register::E => "E",
        Register::H => "H",
        Register::L => "L",
        Register::AF => "AF",
        Register::BC => "BC",
        Register::DE => "DE",
        Register::HL => "HL",
        Register::SP => "SP",
        Register::PC => "PC",
    }
}

pub fn mnemonic(itype: InstructionType) -> (name: &'static str)
    ensures
        name == spec_mnemonic(itype),
{
    match itype {
        InstructionType::NONE => "NONE",
        InstructionType::NOP => "NOP",
        InstructionType::LD => "LD",
        InstructionType::INC => "INC",
        InstructionType::DEC => "DEC",
        InstructionType::RLCA => "RLCA",
        InstructionType::ADD => "ADD",
        InstructionType::RRCA => "RRCA",
        InstructionType::STOP => "STOP",
        InstructionType::RLA => "RLA",
        InstructionType::JR => "JR",
        InstructionType::RRA => "RRA",
        InstructionType::DAA => "DAA",
        InstructionType::CPL => "CPL",
        InstructionType::SCF => "SCF",
        InstructionType::CCF => "CCF",
        InstructionType::HALT => "HALT",
        InstructionType::ADC => "ADC",
        InstructionType::SUB => "SUB",
        InstructionType::SBC => "SBC",
        InstructionType::AND => "AND",
        InstructionType::XOR => "XOR",
        InstructionType::OR => "OR",
        InstructionType::CP => "CP",
        InstructionType::POP => "POP",
        InstructionType::JP => "JP",
        InstructionType::PUSH => "PUSH",
        InstructionType::RET => "RET",
        InstructionType::CB => "CB",
        InstructionType::CALL => "CALL",
        InstructionType::RETI => "RETI",
        InstructionType::LDH => "LDH",
        InstructionType::JPHL => "JPHL",
        InstructionType::DI => "DI",
        InstructionType::EI => "EI",
        InstructionType::RST => "RST",
        InstructionType::ERR => "ERR",
        InstructionType::RLC => "RLC",
        InstructionType::RRC => "RRC",
        InstructionType::RL => "RL",
        InstructionType::RR => "RR",
        InstructionType::SLA => "SLA",
        InstructionType::SRA => "SRA",
        InstructionType::SWAP => "SWAP",
        InstructionType::SRL => "SRL",
        InstructionType::BIT => "BIT",
        InstructionType::RES => "RES",
        InstructionType::SET => "SET",
    }
}

fn digit(n: u16) -> (text: &'static str)
    requires
        n < 16,
    ensures
        text == spec_digit(n as int),
{
    match n {
        0 => "0",
        1 => "1",
        2 => "2",
        3 => "3",
        4 => "4",
        5 => "5",
        6 => "6",
        7 => "7",
        8 => "8",
        9 => "9",
        10 => "A",
        11 => "B",
        12 => "C",
        13 => "D",
        14 => "E",
        _ => "F",
    }
}

/// Appends a number in hexadecimal.
fn push_hex(text: &mut String, value: u16, wide: bool)
    ensures
        final(text)@ == old(text)@ + spec_hex(value, if wide { 4int } else { 2int }),
{
    let ghost start = text@;
    let ghost shown = spec_hex(value, if wide { 4int } else { 2int });
    if value >= 0x1000 || wide {
        text.append(digit(value / 4096));
    }
    if value >= 0x100 || wide {
        text.append(digit((value / 256) % 16));
    }
    text.append(digit((value / 16) % 16));
    text.append(digit(value % 16));
    assert(text@ =~= start + shown);
}

/// Appends a number in decimal.
fn push_decimal(text: &mut String, value: u8)
    ensures
        final(text)@ == old(text)@ + spec_decimal(value),
{
    let ghost start = text@;
    if value >= 100 {
        text.append(digit((value / 100) as u16));
    }
    if value >= 10 {
        text.append(digit(((value / 10) % 10) as u16));
    }
    text.append(digit((value % 10) as u16));
    assert(text@ =~= start + spec_decimal(value));
}

/// The registers as text: `PC` and `SP`, then the eight byte registers,
/// each by its name and its value in four hexadecimal digits.
pub open spec fn spec_registers_text(regs: RegisterFile) -> Seq<char> {
    "PC: "@ + spec_hex(regs.pc, 4) + " SP: "@ + spec_hex(regs.sp, 4) + " A: "@ + spec_hex(regs.a as u16, 4)
        + " F: "@ + spec_hex(regs.f.spec_bits() as u16, 4) + " B: "@ + spec_hex(regs.b as u16, 4) + " C: "@
        + spec_hex(regs.c as u16, 4) + " D: "@ + spec_hex(regs.d as u16, 4) + " E: "@ + spec_hex(
        regs.e as u16,
        4,
    ) + " H: "@ + spec_hex(regs.h as u16, 4) + " L: "@ + spec_hex(regs.l as u16, 4)
}

impl RegisterFile {
    /// The registers as text: see [`spec_registers_text`].
    pub fn to_text(&self) -> (text: String)
        ensures
            text@ == spec_registers_text(*self),
    {
        let mut text = String::from_str("PC: ");
        push_hex(&mut text, self.pc, true);
        text.append(" SP: ");
        push_hex(&mut text, self.sp, true);
        text.append(" A: ");
        push_hex(&mut text, self.a as u16, true);
        text.append(" F: ");
        push_hex(&mut text, self.f.bits() as u16, true);
        text.append(" B: ");
        push_hex(&mut text, self.b as u16, true);
        text.append(" C: ");
        push_hex(&mut text, self.c as u16, true);
        text.append(" D: ");
        push_hex(&mut text, self.d as u16, true);
        text.append(" E: ");
        push_hex(&mut text, self.e as u16, true);
        text.append(" H: ");
        push_hex(&mut text, self.h as u16, true);
        text.append(" L: ");
        push_hex(&mut text, self.l as u16, true);
        assert(text@ =~= spec_registers_text(*self));
        text
    }
}

impl CPU {
    /// The processor as text: a heading, and the registers on a line of
    /// their own.
    pub fn to_text(&self) -> (text: String)
        ensures
            text@ == "CPU register file:\n"@ + spec_registers_text(self.registers),
    {
        let mut text = String::from_str("CPU register file:\n");
        let registers = self.registers.to_text();
        text.append(registers.as_str());
        text
    }
}

impl Instruction {
    /// The instruction as text, with its data: see [`spec_fmt_with_data`].
    pub fn fmt_with_data(&self, data: u16) -> (text: String)
        requires
            has_operands(*self),
        ensures
            text@ == spec_fmt_with_data(*self, data),
    {
        proof {
            lemma_word_bits();
        }
        let ghost op = spec_mnemonic(self.itype)@;
        let ghost r1 = spec_register_name(self.reg1->0)@;
        let ghost r2 = spec_register_name(self.reg2->0)@;
        let mut text = String::from_str(mnemonic(self.itype));
        match self.mode {
            AddressMode::IMP => {},
            AddressMode::D8 | AddressMode::RST => {
                text.append(" $");
                push_hex(&mut text, data, false);
                assert(text@ =~= op + " $"@ + spec_hex(data, 2));
            },
            AddressMode::D16 => {
                text.append(" $");
                push_hex(&mut text, data, true);
                assert(text@ =~= op + " $"@ + spec_hex(data, 4));
            },
            AddressMode::R => {
                text.append(" ");
                text.append(register_name(self.reg1.unwrap()));
                assert(text@ =~= op + " "@ + r1);
            },
            AddressMode::R_R => {
                text.append(" ");
                text.append(register_name(self.reg1.unwrap()));
                text.append(", ");
                text.append(register_name(self.reg2.unwrap()));
                assert(text@ =~= op + " "@ + r1 + ", "@ + r2);
            },
            AddressMode::R_A8 | AddressMode::R_D8 => {
                text.append(" ");
                text.append(register_name(self.reg1.unwrap()));
                text.append(", $");
                push_hex(&mut text, data, false);
                assert(text@ =~= op + " "@ + r1 + ", $"@ + spec_hex(data, 2));
            },
            AddressMode::R_A16 | AddressMode::R_D16 => {
                text.append(" ");
                text.append(register_name(self.reg1.unwrap()));
                text.append(", $");
                push_hex(&mut text, data, true);
                assert(text@ =~= op + " "@ + r1 + ", $"@ + spec_hex(data, 4));
            },
            AddressMode::A8_R => {
                text.append(" $");
                push_hex(&mut text, data, false);
                text.append(", ");
                text.append(register_name(self.reg2.unwrap()));
                assert(text@ =~= op + " $"@ + spec_hex(data, 2) + ", "@ + r2);
            },
            AddressMode::A16_R | AddressMode::D16_R => {
                text.append(" ($");
                push_hex(&mut text, data, true);
                text.append("), ");
                text.append(register_name(self.reg2.unwrap()));
                assert(text@ =~= op + " ($"@ + spec_hex(data, 4) + "), "@ + r2);
            },
            AddressMode::MR => {
                text.append(" (");
                text.append(register_name(self.reg1.unwrap()));
                text.append(")");
                assert(text@ =~= op + " ("@ + r1 + ")"@);
            },
            AddressMode::MR_R => {
                text.append(" (");
                text.append(register_name(self.reg1.unwrap()));
                text.append("), ");
                text.append(register_name(self.reg2.unwrap()));
                assert(text@ =~= op + " ("@ + r1 + "), "@ + r2);
            },
            AddressMode::R_MR => {
                text.append(" ");
                text.append(register_name(self.reg1.unwrap()));
                text.append(", (");
                text.append(register_name(self.reg2.unwrap()));
                text.append(")");
                assert(text@ =~= op + " "@ + r1 + ", ("@ + r2 + ")"@);
            },
            AddressMode::MR_D8 => {
                text.append(" (");
                text.append(register_name(self.reg1.unwrap()));
                text.append("), $");
                push_hex(&mut text, data, false);
                assert(text@ =~= op + " ("@ + r1 + "), $"@ + spec_hex(data, 2));
            },
            AddressMode::R_HLI => {
                text.append(" ");
                text.append(register_name(self.reg1.unwrap()));
                text.append(", (");
                text.append(register_name(self.reg2.unwrap()));
                text.append("+)");
                assert(text@ =~= op + " "@ + r1 + ", ("@ + r2 + "+)"@);
            },
            AddressMode::HLI_R => {
                text.append(" (");
                text.append(register_name(self.reg1.unwrap()));
                text.append("+), ");
                text.append(register_name(self.reg2.unwrap()));
                assert(text@ =~= op + " ("@ + r1 + "+), "@ + r2);
            },
            AddressMode::R_HLD => {
                text.append(" ");
                text.append(register_name(self.reg1.unwrap()));
                text.append(", (");
                text.append(register_name(self.reg2.unwrap()));
                text.append("-)");
                assert(text@ =~= op + " "@ + r1 + ", ("@ + r2 + "-)"@);
            },
            AddressMode::HLD_R => {
                text.append(" (");
                text.append(register_name(self.reg1.unwrap()));
                text.append("-), ");
                text.append(register_name(self.reg2.unwrap()));
                assert(text@ =~= op + " ("@ + r1 + "-), "@ + r2);
            },
            AddressMode::HL_SPR => {
                text.append(" ");
                text.append(register_name(self.reg1.unwrap()));
                text.append(", SP+");
                push_decimal(&mut text, (data & 0x00FF) as u8);
                assert(text@ =~= op + " "@ + r1 + ", SP+"@ + spec_decimal((data % 256) as u8));
            },
        }
        text
    }
}

} // verus!
