//! The instruction descriptors and the two decode tables.
//!
//! An opcode byte splits into three fields, `x = opcode / 64`,
//! `y = (opcode / 8) % 8` and `z = opcode % 8`; `y` splits again into
//! `p = y / 2` and `q = y % 2`. The opcode map is regular in these fields, and
//! the specification of the decoder is written over them.

use vstd::prelude::*;
use super::register_file::Register;
use crate::bits::lemma_byte_bits;

verus! {

/// The condition of a conditional jump, call or return.
#[allow(clippy::upper_case_acronyms)]
#[derive(Copy, Clone, Debug, PartialEq, Eq, Structural)]
pub enum Condition {
    NZ,
    Z,
    NC,
    C,
}

/// Where an instruction finds its data and where it puts its result.
///
/// - `IMP`: no operand
/// - `R`: the first register
/// - `R_R`: register to register
/// - `R_D8`, `D8`: the byte that follows the opcode
/// - `R_D16`, `D16`: the word that follows the opcode
/// - `R_MR`: memory, at the address in the second register, to register
/// - `MR_R`: register to memory, at the address in the first register
/// - `MR`: memory at the address in the first register, read and written back
/// - `MR_D8`: the byte that follows the opcode, to memory
/// - `R_HLI`, `R_HLD`, `HLI_R`, `HLD_R`: through `HL`, which is then
///   incremented or decremented
/// - `R_A8`, `A8_R`: the high page, at the offset that follows the opcode
/// - `A16_R`, `D16_R`, `R_A16`: the address that follows the opcode
/// - `HL_SPR`: the signed byte that follows the opcode, to be added to `SP`
/// - `RST`: a fixed target that the opcode selects
#[allow(non_camel_case_types)]
#[allow(clippy::upper_case_acronyms)]
#[derive(Copy, Clone, Debug, PartialEq, Eq, Structural)]
pub enum AddressMode {
    IMP,
    R_D16,
    R_R,
    MR_R,
    R,
    R_D8,
    R_MR,
    R_HLI,
    R_HLD,
    HLI_R,
    HLD_R,
    R_A8,
    A8_R,
    HL_SPR,
    D16,
    D8,
    D16_R,
    MR_D8,
    MR,
    A16_R,
    R_A16,
    RST,
}

/// What an instruction does.
#[allow(clippy::upper_case_acronyms)]
#[derive(Copy, Clone, Debug, PartialEq, Eq, Structural)]
pub enum InstructionType {
    NONE,
    NOP,
    LD,
    INC,
    DEC,
    RLCA,
    ADD,
    RRCA,
    STOP,
    RLA,
    JR,
    RRA,
    DAA,
    CPL,
    SCF,
    CCF,
    HALT,
    ADC,
    SUB,
    SBC,
    AND,
    XOR,
    OR,
    CP,
    POP,
    JP,
    PUSH,
    RET,
    CB,
    CALL,
    RETI,
    LDH,
    JPHL,
    DI,
    EI,
    RST,
    ERR,
    // The operations behind the 0xCB prefix.
    RLC,
    RRC,
    RL,
    RR,
    SLA,
    SRA,
    SWAP,
    SRL,
    BIT,
    RES,
    SET,
}

/// An instruction descriptor: the operation, the addressing mode, up to two
/// registers, and the condition of a conditional branch.
#[derive(Copy, Clone, Debug, PartialEq, Eq, Structural)]
pub struct Instruction {
    pub itype: InstructionType,
    pub mode: AddressMode,
    pub reg1: Option<Register>,
    pub reg2: Option<Register>,
    pub cond: Option<Condition>,
}

/// The eleven opcodes that the processor does not define.
pub open spec fn is_illegal_opcode(opcode: u8) -> bool {
    opcode == 0xD3 || opcode == 0xDB || opcode == 0xDD || opcode == 0xE3 || opcode == 0xE4
        || opcode == 0xEB || opcode == 0xEC || opcode == 0xED || opcode == 0xF4 || opcode == 0xFC
        || opcode == 0xFD
}

/// The opcodes that the unprefixed table describes: all but the illegal
/// ones and the prefix `0xCB`.
pub open spec fn is_legal_opcode(opcode: u8) -> bool {
    !is_illegal_opcode(opcode) && opcode != 0xCB
}

/// The operand that the three-bit field `code` names:
/// `B`, `C`, `D`, `E`, `H`, `L`, the byte at `HL`, `A`.
pub open spec fn r8_operand(code: int) -> Register {
    if code == 0 {
        Register::B
    } else if code == 1 {
        Register::C
    } else if code == 2 {
        Register::D
    } else if code == 3 {
        Register::E
    } else if code == 4 {
        Register::H
    } else if code == 5 {
        Register::L
    } else if code == 6 {
        Register::HL
    } else {
        Register::A
    }
}

/// The pair that the two-bit field `p` names in loads and arithmetic.
pub open spec fn r16_operand(p: int) -> Register {
    if p == 0 {
        Register::BC
    } else if p == 1 {
        Register::DE
    } else if p == 2 {
        Register::HL
    } else {
        Register::SP
    }
}

/// The pair that the two-bit field `p` names in `PUSH` and `POP`.
pub open spec fn r16_stack_operand(p: int) -> Register {
    if p == 3 {
        Register::AF
    } else {
        r16_operand(p)
    }
}

/// The condition that the two-bit field `code` names.
pub open spec fn condition_of(code: int) -> Condition {
    if code == 0 {
        Condition::NZ
    } else if code == 1 {
        Condition::Z
    } else if code == 2 {
        Condition::NC
    } else {
        Condition::C
    }
}

/// The accumulator operation that the three-bit field `y` names.
pub open spec fn alu_operation(y: int) -> InstructionType {
    if y == 0 {
        InstructionType::ADD
    } else if y == 1 {
        InstructionType::ADC
    } else if y == 2 {
        InstructionType::SUB
    } else if y == 3 {
        InstructionType::SBC
    } else if y == 4 {
        InstructionType::AND
    } else if y == 5 {
        InstructionType::XOR
    } else if y == 6 {
        InstructionType::OR
    } else {
        InstructionType::CP
    }
}

/// A descriptor without operands.
pub open spec fn implied(itype: InstructionType) -> Instruction {
    Instruction { itype, mode: AddressMode::IMP, reg1: None, reg2: None, cond: None }
}

/// A descriptor with one register.
pub open spec fn unary(itype: InstructionType, mode: AddressMode, reg1: Register) -> Instruction {
    Instruction { itype, mode, reg1: Some(reg1), reg2: None, cond: None }
}

/// A descriptor with two registers.
pub open spec fn binary(itype: InstructionType, mode: AddressMode, reg1: Register, reg2: Register) -> Instruction {
    Instruction { itype, mode, reg1: Some(reg1), reg2: Some(reg2), cond: None }
}

/// A descriptor of a branch, with its condition if it has one.
pub open spec fn branch(itype: InstructionType, mode: AddressMode, cond: Option<Condition>) -> Instruction {
    Instruction { itype, mode, reg1: None, reg2: None, cond }
}

/// An operation on the operand `r8_operand(code)`: mode `R` on a register,
/// mode `MR` on the byte at `HL`.
pub open spec fn on_r8(itype: InstructionType, code: int) -> Instruction {
    unary(itype, if code == 6 { AddressMode::MR } else { AddressMode::R }, r8_operand(code))
}

/// The opcodes `0x00` to `0x3F`.
pub open spec fn decode_quadrant0(y: int, z: int) -> Instruction {
    let p = y / 2;
    let q = y % 2;
    if z == 0 {
        if y == 0 {
            implied(InstructionType::NOP)
        } else if y == 1 {
            Instruction {
                itype: InstructionType::LD,
                mode: AddressMode::A16_R,
                reg1: None,
                reg2: Some(Register::SP),
                cond: None,
            }
        } else if y == 2 {
            implied(InstructionType::STOP)
        } else if y == 3 {
            branch(InstructionType::JR, AddressMode::D8, None)
        } else {
            branch(InstructionType::JR, AddressMode::D8, Some(condition_of(y - 4)))
        }
    } else if z == 1 {
        if q == 0 {
            unary(InstructionType::LD, AddressMode::R_D16, r16_operand(p))
        } else {
            binary(InstructionType::ADD, AddressMode::R_R, Register::HL, r16_operand(p))
        }
    } else if z == 2 {
        if q == 0 {
            if p == 0 {
                binary(InstructionType::LD, AddressMode::MR_R, Register::BC, Register::A)
            } else if p == 1 {
                binary(InstructionType::LD, AddressMode::MR_R, Register::DE, Register::A)
            } else if p == 2 {
                binary(InstructionType::LD, AddressMode::HLI_R, Register::HL, Register::A)
            } else {
                binary(InstructionType::LD, AddressMode::HLD_R, Register::HL, Register::A)
            }
        } else {
            if p == 0 {
                binary(InstructionType::LD, AddressMode::R_MR, Register::A, Register::BC)
            } else if p == 1 {
                binary(InstructionType::LD, AddressMode::R_MR, Register::A, Register::DE)
            } else if p == 2 {
                binary(InstructionType::LD, AddressMode::R_HLI, Register::A, Register::HL)
            } else {
                binary(InstructionType::LD, AddressMode::R_HLD, Register::A, Register::HL)
            }
        }
    } else if z == 3 {
        unary(if q == 0 { InstructionType::INC } else { InstructionType::DEC }, AddressMode::R, r16_operand(p))
    } else if z == 4 {
        on_r8(InstructionType::INC, y)
    } else if z == 5 {
        on_r8(InstructionType::DEC, y)
    } else if z == 6 {
        unary(InstructionType::LD, if y == 6 { AddressMode::MR_D8 } else { AddressMode::R_D8 }, r8_operand(y))
    } else {
        if y == 0 {
            implied(InstructionType::RLCA)
        } else if y == 1 {
            implied(InstructionType::RRCA)
        } else if y == 2 {
            implied(InstructionType::RLA)
        } else if y == 3 {
            implied(InstructionType::RRA)
        } else if y == 4 {
            unary(InstructionType::DAA, AddressMode::R, Register::A)
        } else if y == 5 {
            implied(InstructionType::CPL)
        } else if y == 6 {
            implied(InstructionType::SCF)
        } else {
            implied(InstructionType::CCF)
        }
    }
}

/// The opcodes `0x40` to `0x7F`: the loads between byte operands, and `HALT`
/// in the place of a load from the byte at `HL` to itself.
pub open spec fn decode_quadrant1(y: int, z: int) -> Instruction {
    if y == 6 && z == 6 {
        implied(InstructionType::HALT)
    } else if z == 6 {
        binary(InstructionType::LD, AddressMode::R_MR, r8_operand(y), Register::HL)
    } else if y == 6 {
        binary(InstructionType::LD, AddressMode::MR_R, Register::HL, r8_operand(z))
    } else {
        binary(InstructionType::LD, AddressMode::R_R, r8_operand(y), r8_operand(z))
    }
}

/// The opcodes `0x80` to `0xBF`: the accumulator operations on a byte operand.
pub open spec fn decode_quadrant2(y: int, z: int) -> Instruction {
    binary(
        alu_operation(y),
        if z == 6 { AddressMode::R_MR } else { AddressMode::R_R },
        Register::A,
        r8_operand(z),
    )
}

/// The opcodes `0xC0` to `0xFF`, for the legal ones among them.
pub open spec fn decode_quadrant3(y: int, z: int) -> Instruction {
    let p = y / 2;
    let q = y % 2;
    if z == 0 {
        if y < 4 {
            branch(InstructionType::RET, AddressMode::IMP, Some(condition_of(y)))
        } else if y == 4 {
            Instruction {
                itype: InstructionType::LDH,
                mode: AddressMode::A8_R,
                reg1: None,
                reg2: Some(Register::A),
                cond: None,
            }
        } else if y == 5 {
            unary(InstructionType::ADD, AddressMode::R_D8, Register::SP)
        } else if y == 6 {
            unary(InstructionType::LDH, AddressMode::R_A8, Register::A)
        } else {
            binary(InstructionType::LD, AddressMode::HL_SPR, Register::HL, Register::SP)
        }
    } else if z == 1 {
        if q == 0 {
            unary(InstructionType::POP, AddressMode::R, r16_stack_operand(p))
        } else if p == 0 {
            implied(InstructionType::RET)
        } else if p == 1 {
            implied(InstructionType::RETI)
        } else if p == 2 {
            unary(InstructionType::JP, AddressMode::R, Register::HL)
        } else {
            binary(InstructionType::LD, AddressMode::R_R, Register::SP, Register::HL)
        }
    } else if z == 2 {
        if y < 4 {
            branch(InstructionType::JP, AddressMode::D16, Some(condition_of(y)))
        } else if y == 4 {
            binary(InstructionType::LDH, AddressMode::MR_R, Register::C, Register::A)
        } else if y == 5 {
            Instruction {
                itype: InstructionType::LD,
                mode: AddressMode::A16_R,
                reg1: None,
                reg2: Some(Register::A),
                cond: None,
            }
        } else if y == 6 {
            binary(InstructionType::LDH, AddressMode::R_MR, Register::A, Register::C)
        } else {
            unary(InstructionType::LD, AddressMode::R_A16, Register::A)
        }
    } else if z == 3 {
        if y == 0 {
            branch(InstructionType::JP, AddressMode::D16, None)
        } else if y == 6 {
            implied(InstructionType::DI)
        } else {
            implied(InstructionType::EI)
        }
    } else if z == 4 {
        branch(InstructionType::CALL, AddressMode::D16, Some(condition_of(y)))
    } else if z == 5 {
        if q == 0 {
            unary(InstructionType::PUSH, AddressMode::R, r16_stack_operand(p))
        } else {
            branch(InstructionType::CALL, AddressMode::D16, None)
        }
    } else if z == 6 {
        unary(alu_operation(y), AddressMode::R_D8, Register::A)
    } else {
        branch(InstructionType::RST, AddressMode::RST, None)
    }
}

/// The descriptor of a legal unprefixed opcode.
pub open spec fn spec_from_opcode(opcode: u8) -> Instruction
    recommends
        is_legal_opcode(opcode),
{
    let x = opcode as int / 64;
    let y = (opcode as int / 8) % 8;
    let z = opcode as int % 8;
    if x == 0 {
        decode_quadrant0(y, z)
    } else if x == 1 {
        decode_quadrant1(y, z)
    } else if x == 2 {
        decode_quadrant2(y, z)
    } else {
        decode_quadrant3(y, z)
    }
}

/// The operation of a prefixed opcode, selected by its upper five bits:
/// eight rotates and shifts, then `BIT`, `RES` and `SET` with eight bit
/// indices each.
pub open spec fn prefixed_operation(group: int) -> InstructionType {
    if group == 0 {
        InstructionType::RLC
    } else if group == 1 {
        InstructionType::RRC
    } else if group == 2 {
        InstructionType::RL
    } else if group == 3 {
        InstructionType::RR
    } else if group == 4 {
        InstructionType::SLA
    } else if group == 5 {
        InstructionType::SRA
    } else if group == 6 {
        InstructionType::SWAP
    } else if group == 7 {
        InstructionType::SRL
    } else if group < 16 {
        InstructionType::BIT
    } else if group < 24 {
        InstructionType::RES
    } else {
        InstructionType::SET
    }
}

/// The descriptor of the opcode that follows the prefix `0xCB`.
pub open spec fn spec_from_opcode_prefixed(opcode: u8) -> Instruction {
    on_r8(prefixed_operation(opcode as int / 8), opcode as int % 8)
}

/// The bit that a prefixed `BIT`, `RES` or `SET` works on.
pub open spec fn bit_index(opcode: u8) -> u8 {
    ((opcode / 8) % 8) as u8
}

/// The three-bit code of a byte operand, the inverse of `r8_operand`.
pub open spec fn r8_code(reg: Register) -> int {
    match reg {
        Register::B => 0,
        Register::C => 1,
        Register::D => 2,
        Register::E => 3,
        Register::H => 4,
        Register::L => 5,
        Register::HL => 6,
        _ => 7,
    }
}

/// The first opcode of the group of a prefixed operation.
pub open spec fn prefixed_base(itype: InstructionType) -> int {
    match itype {
        InstructionType::RLC => 0x00,
        InstructionType::RRC => 0x08,
        InstructionType::RL => 0x10,
        InstructionType::RR => 0x18,
        InstructionType::SLA => 0x20,
        InstructionType::SRA => 0x28,
        InstructionType::SWAP => 0x30,
        InstructionType::SRL => 0x38,
        InstructionType::BIT => 0x40,
        InstructionType::RES => 0x80,
        _ => 0xC0,
    }
}

/// Whether the operation takes a bit index.
pub open spec fn takes_bit_index(itype: InstructionType) -> bool {
    itype == InstructionType::BIT || itype == InstructionType::RES || itype == InstructionType::SET
}

/// Whether the operation stands behind the prefix `0xCB`.
pub open spec fn is_prefixed_operation(itype: InstructionType) -> bool {
    match itype {
        InstructionType::RLC
        | InstructionType::RRC
        | InstructionType::RL
        | InstructionType::RR
        | InstructionType::SLA
        | InstructionType::SRA
        | InstructionType::SWAP
        | InstructionType::SRL
        | InstructionType::BIT
        | InstructionType::RES
        | InstructionType::SET => true,
        _ => false,
    }
}

/// The prefixed opcode of a descriptor; `bit` counts for `BIT`, `RES` and
/// `SET` only.
pub open spec fn spec_encode_prefixed(instruction: Instruction, bit: u8) -> int {
    prefixed_base(instruction.itype) + (if takes_bit_index(instruction.itype) {
        8 * (bit as int % 8)
    } else {
        0
    }) + (match instruction.reg1 {
        Some(reg) => r8_code(reg),
        None => 0,
    })
}

impl Default for Instruction {
    fn default() -> (i: Instruction)
        ensures
            i == implied(InstructionType::NONE),
    {
        Instruction { itype: InstructionType::NONE, mode: AddressMode::IMP, reg1: None, reg2: None, cond: None }
    }
}

impl Instruction {
    /// Whether `opcode` has an entry in the unprefixed table.
    pub fn is_legal(opcode: u8) -> (legal: bool)
        ensures
            legal == is_legal_opcode(opcode),
    {
        !(opcode == 0xCB || opcode == 0xD3 || opcode == 0xDB || opcode == 0xDD || opcode == 0xE3
            || opcode == 0xE4 || opcode == 0xEB || opcode == 0xEC || opcode == 0xED || opcode == 0xF4
            || opcode == 0xFC || opcode == 0xFD)
    }

    fn get_register_for_prefixed(opcode: u8) -> (reg: Register)
        ensures
            reg == r8_operand(opcode as int % 8),
            !reg.spec_is_16bit() || reg == Register::HL,
    {
        proof {
            lemma_byte_bits();
        }
        let reg_bits: u8 = opcode & 0b111;
        match reg_bits {
            0 => Register::B,
            1 => Register::C,
            2 => Register::D,
            3 => Register::E,
            4 => Register::H,
            5 => Register::L,
            6 => Register::HL,
            _ => Register::A,
        }
    }

    /// Decodes the opcode that follows the prefix `0xCB`.
    pub fn from_opcode_prefixed(opcode: u8) -> (i: Instruction)
        ensures
            i == spec_from_opcode_prefixed(opcode),
    {
        proof {
            lemma_byte_bits();
        }
        let reg1 = Instruction::get_register_for_prefixed(opcode);
        let mode = if reg1 == Register::HL {
            AddressMode::MR
        } else {
            AddressMode::R
        };
        let itype_code: u8 = (opcode & 0xF0) >> 4;
        let low: u8 = opcode & 0x0F;
        let itype = match itype_code {
            0 => {
                if low < 8 {
                    InstructionType::RLC
                } else {
                    InstructionType::RRC
                }
            },
            1 => {
                if low < 8 {
                    InstructionType::RL
                } else {
                    InstructionType::RR
                }
            },
            2 => {
                if low < 8 {
                    InstructionType::SLA
                } else {
                    InstructionType::SRA
                }
            },
            3 => {
                if low < 8 {
                    InstructionType::SWAP
                } else {
                    InstructionType::SRL
                }
            },
            4..=7 => InstructionType::BIT,
            8..=0xB => InstructionType::RES,
            _ => InstructionType::SET,
        };

        Instruction { itype, mode, reg1: Some(reg1), reg2: None, cond: None }
    }

    /// The prefixed opcode that decodes to this descriptor; `bit` is the bit
    /// index of a `BIT`, `RES` or `SET` and is ignored for the other
    /// operations. `None` for a descriptor that is not a prefixed one.
    pub fn encode_prefixed(&self, bit: u8) -> (opcode: Option<u8>)
        ensures
            opcode is Some <==> exists|o: u8| spec_from_opcode_prefixed(o) == *self,
            opcode matches Some(o) ==> o == spec_encode_prefixed(*self, bit) && spec_from_opcode_prefixed(o)
                == *self && (takes_bit_index(self.itype) ==> bit_index(o) == bit % 8),
    {
        let base: u8 = match self.itype {
            InstructionType::RLC => 0x00,
            InstructionType::RRC => 0x08,
            InstructionType::RL => 0x10,
            InstructionType::RR => 0x18,
            InstructionType::SLA => 0x20,
            InstructionType::SRA => 0x28,
            InstructionType::SWAP => 0x30,
            InstructionType::SRL => 0x38,
            InstructionType::BIT => 0x40,
            InstructionType::RES => 0x80,
            InstructionType::SET => 0xC0,
            _ => {
                assert forall|o: u8| spec_from_opcode_prefixed(o) != *self by {
                    assert(is_prefixed_operation(spec_from_opcode_prefixed(o).itype));
                }
                return None;
            },
        };
        let code: u8 = match self.reg1 {
            Some(Register::B) => 0,
            Some(Register::C) => 1,
            Some(Register::D) => 2,
            Some(Register::E) => 3,
            Some(Register::H) => 4,
            Some(Register::L) => 5,
            Some(Register::HL) => 6,
            Some(Register::A) => 7,
            _ => {
                assert forall|o: u8| spec_from_opcode_prefixed(o) != *self by {
                    let r = spec_from_opcode_prefixed(o).reg1;
                    assert(r == Some(r8_operand(o as int % 8)));
                }
                return None;
            },
        };
        let expected_mode = if code == 6 {
            AddressMode::MR
        } else {
            AddressMode::R
        };
        if self.mode != expected_mode || self.reg2.is_some() || self.cond.is_some() {
            assert forall|o: u8| spec_from_opcode_prefixed(o) != *self by {
                let d = spec_from_opcode_prefixed(o);
                if d.reg1 == self.reg1 {
                    assert(o as int % 8 == code);
                }
            }
            return None;
        }
        let takes_bit = self.itype == InstructionType::BIT || self.itype == InstructionType::RES || self.itype
            == InstructionType::SET;
        let o: u8 = if takes_bit {
            base + 8 * (bit % 8) + code
        } else {
            base + code
        };
        assert(spec_from_opcode_prefixed(o) == *self);
        Some(o)
    }

    /// Decodes an unprefixed opcode. The illegal opcodes and the prefix
    /// `0xCB` have no descriptor.
    pub fn from_opcode(opcode: u8) -> (i: Instruction)
        requires
            is_legal_opcode(opcode),
        ensures
            i == spec_from_opcode(opcode),
    {
        match opcode / 16 {
            0x0 => decode_row_0(opcode),
            0x1 => decode_row_1(opcode),
            0x2 => decode_row_2(opcode),
            0x3 => decode_row_3(opcode),
            0x4 => decode_row_4(opcode),
            0x5 => decode_row_5(opcode),
            0x6 => decode_row_6(opcode),
            0x7 => decode_row_7(opcode),
            0x8 => decode_row_8(opcode),
            0x9 => decode_row_9(opcode),
            0xA => decode_row_a(opcode),
            0xB => decode_row_b(opcode),
            0xC => decode_row_c(opcode),
            0xD => decode_row_d(opcode),
            0xE => decode_row_e(opcode),
            _ => decode_row_f(opcode),
        }
    }
}

/// The descriptors of the opcodes `0x00` to `0x0F`.
fn decode_row_0(opcode: u8) -> (i: Instruction)
    requires
        opcode / 16 == 0,
        is_legal_opcode(opcode),
    ensures
        i == spec_from_opcode(opcode),
{
    match opcode {
        0x00 => Instruction { itype: InstructionType::NOP, mode: AddressMode::IMP, reg1: None, reg2: None, cond: None },
        0x01 => Instruction { itype: InstructionType::LD, mode: AddressMode::R_D16, reg1: Some(Register::BC), reg2: None, cond: None },
        0x02 => Instruction { itype: InstructionType::LD, mode: AddressMode::MR_R, reg1: Some(Register::BC), reg2: Some(Register::A), cond: None },
        0x03 => Instruction { itype: InstructionType::INC, mode: AddressMode::R, reg1: Some(Register::BC), reg2: None, cond: None },
        0x04 => Instruction { itype: InstructionType::INC, mode: AddressMode::R, reg1: Some(Register::B), reg2: None, cond: None },
        0x05 => Instruction { itype: InstructionType::DEC, mode: AddressMode::R, reg1: Some(Register::B), reg2: None, cond: None },
        0x06 => Instruction { itype: InstructionType::LD, mode: AddressMode::R_D8, reg1: Some(Register::B), reg2: None, cond: None },
        0x07 => Instruction { itype: InstructionType::RLCA, mode: AddressMode::IMP, reg1: None, reg2: None, cond: None },
        0x08 => Instruction { itype: InstructionType::LD, mode: AddressMode::A16_R, reg1: None, reg2: Some(Register::SP), cond: None },
        0x09 => Instruction { itype: InstructionType::ADD, mode: AddressMode::R_R, reg1: Some(Register::HL), reg2: Some(Register::BC), cond: None },
        0x0A => Instruction { itype: InstructionType::LD, mode: AddressMode::R_MR, reg1: Some(Register::A), reg2: Some(Register::BC), cond: None },
        0x0B => Instruction { itype: InstructionType::DEC, mode: AddressMode::R, reg1: Some(Register::BC), reg2: None, cond: None },
        0x0C => Instruction { itype: InstructionType::INC, mode: AddressMode::R, reg1: Some(Register::C), reg2: None, cond: None },
        0x0D => Instruction { itype: InstructionType::DEC, mode: AddressMode::R, reg1: Some(Register::C), reg2: None, cond: None },
        0x0E => Instruction { itype: InstructionType::LD, mode: AddressMode::R_D8, reg1: Some(Register::C), reg2: None, cond: None },
        _ => Instruction { itype: InstructionType::RRCA, mode: AddressMode::IMP, reg1: None, reg2: None, cond: None },
    }
}

/// The descriptors of the opcodes `0x10` to `0x1F`.
fn decode_row_1(opcode: u8) -> (i: Instruction)
    requires
        opcode / 16 == 1,
        is_legal_opcode(opcode),
    ensures
        i == spec_from_opcode(opcode),
{
    match opcode {
        0x10 => Instruction { itype: InstructionType::STOP, mode: AddressMode::IMP, reg1: None, reg2: None, cond: None },
        0x11 => Instruction { itype: InstructionType::LD, mode: AddressMode::R_D16, reg1: Some(Register::DE), reg2: None, cond: None },
        0x12 => Instruction { itype: InstructionType::LD, mode: AddressMode::MR_R, reg1: Some(Register::DE), reg2: Some(Register::A), cond: None },
        0x13 => Instruction { itype: InstructionType::INC, mode: AddressMode::R, reg1: Some(Register::DE), reg2: None, cond: None },
        0x14 => Instruction { itype: InstructionType::INC, mode: AddressMode::R, reg1: Some(Register::D), reg2: None, cond: None },
        0x15 => Instruction { itype: InstructionType::DEC, mode: AddressMode::R, reg1: Some(Register::D), reg2: None, cond: None },
        0x16 => Instruction { itype: InstructionType::LD, mode: AddressMode::R_D8, reg1: Some(Register::D), reg2: None, cond: None },
        0x17 => Instruction { itype: InstructionType::RLA, mode: AddressMode::IMP, reg1: None, reg2: None, cond: None },
        0x18 => Instruction { itype: InstructionType::JR, mode: AddressMode::D8, reg1: None, reg2: None, cond: None },
        0x19 => Instruction { itype: InstructionType::ADD, mode: AddressMode::R_R, reg1: Some(Register::HL), reg2: Some(Register::DE), cond: None },
        0x1A => Instruction { itype: InstructionType::LD, mode: AddressMode::R_MR, reg1: Some(Register::A), reg2: Some(Register::DE), cond: None },
        0x1B => Instruction { itype: InstructionType::DEC, mode: AddressMode::R, reg1: Some(Register::DE), reg2: None, cond: None },
        0x1C => Instruction { itype: InstructionType::INC, mode: AddressMode::R, reg1: Some(Register::E), reg2: None, cond: None },
        0x1D => Instruction { itype: InstructionType::DEC, mode: AddressMode::R, reg1: Some(Register::E), reg2: None, cond: None },
        0x1E => Instruction { itype: InstructionType::LD, mode: AddressMode::R_D8, reg1: Some(Register::E), reg2: None, cond: None },
        _ => Instruction { itype: InstructionType::RRA, mode: AddressMode::IMP, reg1: None, reg2: None, cond: None },
    }
}

/// The descriptors of the opcodes `0x20` to `0x2F`.
fn decode_row_2(opcode: u8) -> (i: Instruction)
    requires
        opcode / 16 == 2,
        is_legal_opcode(opcode),
    ensures
        i == spec_from_opcode(opcode),
{
    match opcode {
        0x20 => Instruction { itype: InstructionType::JR, mode: AddressMode::D8, reg1: None, reg2: None, cond: Some(Condition::NZ) },
        0x21 => Instruction { itype: InstructionType::LD, mode: AddressMode::R_D16, reg1: Some(Register::HL), reg2: None, cond: None },
        0x22 => Instruction { itype: InstructionType::LD, mode: AddressMode::HLI_R, reg1: Some(Register::HL), reg2: Some(Register::A), cond: None },
        0x23 => Instruction { itype: InstructionType::INC, mode: AddressMode::R, reg1: Some(Register::HL), reg2: None, cond: None },
        0x24 => Instruction { itype: InstructionType::INC, mode: AddressMode::R, reg1: Some(Register::H), reg2: None, cond: None },
        0x25 => Instruction { itype: InstructionType::DEC, mode: AddressMode::R, reg1: Some(Register::H), reg2: None, cond: None },
        0x26 => Instruction { itype: InstructionType::LD, mode: AddressMode::R_D8, reg1: Some(Register::H), reg2: None, cond: None },
        0x27 => Instruction { itype: InstructionType::DAA, mode: AddressMode::R, reg1: Some(Register::A), reg2: None, cond: None },
        0x28 => Instruction { itype: InstructionType::JR, mode: AddressMode::D8, reg1: None, reg2: None, cond: Some(Condition::Z) },
        0x29 => Instruction { itype: InstructionType::ADD, mode: AddressMode::R_R, reg1: Some(Register::HL), reg2: Some(Register::HL), cond: None },
        0x2A => Instruction { itype: InstructionType::LD, mode: AddressMode::R_HLI, reg1: Some(Register::A), reg2: Some(Register::HL), cond: None },
        0x2B => Instruction { itype: InstructionType::DEC, mode: AddressMode::R, reg1: Some(Register::HL), reg2: None, cond: None },
        0x2C => Instruction { itype: InstructionType::INC, mode: AddressMode::R, reg1: Some(Register::L), reg2: None, cond: None },
        0x2D => Instruction { itype: InstructionType::DEC, mode: AddressMode::R, reg1: Some(Register::L), reg2: None, cond: None },
        0x2E => Instruction { itype: InstructionType::LD, mode: AddressMode::R_D8, reg1: Some(Register::L), reg2: None, cond: None },
        _ => Instruction { itype: InstructionType::CPL, mode: AddressMode::IMP, reg1: None, reg2: None, cond: None },
    }
}

/// The descriptors of the opcodes `0x30` to `0x3F`.
fn decode_row_3(opcode: u8) -> (i: Instruction)
    requires
        opcode / 16 == 3,
        is_legal_opcode(opcode),
    ensures
        i == spec_from_opcode(opcode),
{
    match opcode {
        0x30 => Instruction { itype: InstructionType::JR, mode: AddressMode::D8, reg1: None, reg2: None, cond: Some(Condition::NC) },
        0x31 => Instruction { itype: InstructionType::LD, mode: AddressMode::R_D16, reg1: Some(Register::SP), reg2: None, cond: None },
        0x32 => Instruction { itype: InstructionType::LD, mode: AddressMode::HLD_R, reg1: Some(Register::HL), reg2: Some(Register::A), cond: None },
        0x33 => Instruction { itype: InstructionType::INC, mode: AddressMode::R, reg1: Some(Register::SP), reg2: None, cond: None },
        0x34 => Instruction { itype: InstructionType::INC, mode: AddressMode::MR, reg1: Some(Register::HL), reg2: None, cond: None },
        0x35 => Instruction { itype: InstructionType::DEC, mode: AddressMode::MR, reg1: Some(Register::HL), reg2: None, cond: None },
        0x36 => Instruction { itype: InstructionType::LD, mode: AddressMode::MR_D8, reg1: Some(Register::HL), reg2: None, cond: None },
        0x37 => Instruction { itype: InstructionType::SCF, mode: AddressMode::IMP, reg1: None, reg2: None, cond: None },
        0x38 => Instruction { itype: InstructionType::JR, mode: AddressMode::D8, reg1: None, reg2: None, cond: Some(Condition::C) },
        0x39 => Instruction { itype: InstructionType::ADD, mode: AddressMode::R_R, reg1: Some(Register::HL), reg2: Some(Register::SP), cond: None },
        0x3A => Instruction { itype: InstructionType::LD, mode: AddressMode::R_HLD, reg1: Some(Register::A), reg2: Some(Register::HL), cond: None },
        0x3B => Instruction { itype: InstructionType::DEC, mode: AddressMode::R, reg1: Some(Register::SP), reg2: None, cond: None },
        0x3C => Instruction { itype: InstructionType::INC, mode: AddressMode::R, reg1: Some(Register::A), reg2: None, cond: None },
        0x3D => Instruction { itype: InstructionType::DEC, mode: AddressMode::R, reg1: Some(Register::A), reg2: None, cond: None },
        0x3E => Instruction { itype: InstructionType::LD, mode: AddressMode::R_D8, reg1: Some(Register::A), reg2: None, cond: None },
        _ => Instruction { itype: InstructionType::CCF, mode: AddressMode::IMP, reg1: None, reg2: None, cond: None },
    }
}

/// The descriptors of the opcodes `0x40` to `0x4F`.
fn decode_row_4(opcode: u8) -> (i: Instruction)
    requires
        opcode / 16 == 4,
        is_legal_opcode(opcode),
    ensures
        i == spec_from_opcode(opcode),
{
    match opcode {
        0x40 => Instruction { itype: InstructionType::LD, mode: AddressMode::R_R, reg1: Some(Register::B), reg2: Some(Register::B), cond: None },
        0x41 => Instruction { itype: InstructionType::LD, mode: AddressMode::R_R, reg1: Some(Register::B), reg2: Some(Register::C), cond: None },
        0x42 => Instruction { itype: InstructionType::LD, mode: AddressMode::R_R, reg1: Some(Register::B), reg2: Some(Register::D), cond: None },
        0x43 => Instruction { itype: InstructionType::LD, mode: AddressMode::R_R, reg1: Some(Register::B), reg2: Some(Register::E), cond: None },
        0x44 => Instruction { itype: InstructionType::LD, mode: AddressMode::R_R, reg1: Some(Register::B), reg2: Some(Register::H), cond: None },
        0x45 => Instruction { itype: InstructionType::LD, mode: AddressMode::R_R, reg1: Some(Register::B), reg2: Some(Register::L), cond: None },
        0x46 => Instruction { itype: InstructionType::LD, mode: AddressMode::R_MR, reg1: Some(Register::B), reg2: Some(Register::HL), cond: None },
        0x47 => Instruction { itype: InstructionType::LD, mode: AddressMode::R_R, reg1: Some(Register::B), reg2: Some(Register::A), cond: None },
        0x48 => Instruction { itype: InstructionType::LD, mode: AddressMode::R_R, reg1: Some(Register::C), reg2: Some(Register::B), cond: None },
        0x49 => Instruction { itype: InstructionType::LD, mode: AddressMode::R_R, reg1: Some(Register::C), reg2: Some(Register::C), cond: None },
        0x4A => Instruction { itype: InstructionType::LD, mode: AddressMode::R_R, reg1: Some(Register::C), reg2: Some(Register::D), cond: None },
        0x4B => Instruction { itype: InstructionType::LD, mode: AddressMode::R_R, reg1: Some(Register::C), reg2: Some(Register::E), cond: None },
        0x4C => Instruction { itype: InstructionType::LD, mode: AddressMode::R_R, reg1: Some(Register::C), reg2: Some(Register::H), cond: None },
        0x4D => Instruction { itype: InstructionType::LD, mode: AddressMode::R_R, reg1: Some(Register::C), reg2: Some(Register::L), cond: None },
        0x4E => Instruction { itype: InstructionType::LD, mode: AddressMode::R_MR, reg1: Some(Register::C), reg2: Some(Register::HL), cond: None },
        _ => Instruction { itype: InstructionType::LD, mode: AddressMode::R_R, reg1: Some(Register::C), reg2: Some(Register::A), cond: None },
    }
}

/// The descriptors of the opcodes `0x50` to `0x5F`.
fn decode_row_5(opcode: u8) -> (i: Instruction)
    requires
        opcode / 16 == 5,
        is_legal_opcode(opcode),
    ensures
        i == spec_from_opcode(opcode),
{
    match opcode {
        0x50 => Instruction { itype: InstructionType::LD, mode: AddressMode::R_R, reg1: Some(Register::D), reg2: Some(Register::B), cond: None },
        0x51 => Instruction { itype: InstructionType::LD, mode: AddressMode::R_R, reg1: Some(Register::D), reg2: Some(Register::C), cond: None },
        0x52 => Instruction { itype: InstructionType::LD, mode: AddressMode::R_R, reg1: Some(Register::D), reg2: Some(Register::D), cond: None },
        0x53 => Instruction { itype: InstructionType::LD, mode: AddressMode::R_R, reg1: Some(Register::D), reg2: Some(Register::E), cond: None },
        0x54 => Instruction { itype: InstructionType::LD, mode: AddressMode::R_R, reg1: Some(Register::D), reg2: Some(Register::H), cond: None },
        0x55 => Instruction { itype: InstructionType::LD, mode: AddressMode::R_R, reg1: Some(Register::D), reg2: Some(Register::L), cond: None },
        0x56 => Instruction { itype: InstructionType::LD, mode: AddressMode::R_MR, reg1: Some(Register::D), reg2: Some(Register::HL), cond: None },
        0x57 => Instruction { itype: InstructionType::LD, mode: AddressMode::R_R, reg1: Some(Register::D), reg2: Some(Register::A), cond: None },
        0x58 => Instruction { itype: InstructionType::LD, mode: AddressMode::R_R, reg1: Some(Register::E), reg2: Some(Register::B), cond: None },
        0x59 => Instruction { itype: InstructionType::LD, mode: AddressMode::R_R, reg1: Some(Register::E), reg2: Some(Register::C), cond: None },
        0x5A => Instruction { itype: InstructionType::LD, mode: AddressMode::R_R, reg1: Some(Register::E), reg2: Some(Register::D), cond: None },
        0x5B => Instruction { itype: InstructionType::LD, mode: AddressMode::R_R, reg1: Some(Register::E), reg2: Some(Register::E), cond: None },
        0x5C => Instruction { itype: InstructionType::LD, mode: AddressMode::R_R, reg1: Some(Register::E), reg2: Some(Register::H), cond: None },
        0x5D => Instruction { itype: InstructionType::LD, mode: AddressMode::R_R, reg1: Some(Register::E), reg2: Some(Register::L), cond: None },
        0x5E => Instruction { itype: InstructionType::LD, mode: AddressMode::R_MR, reg1: Some(Register::E), reg2: Some(Register::HL), cond: None },
        _ => Instruction { itype: InstructionType::LD, mode: AddressMode::R_R, reg1: Some(Register::E), reg2: Some(Register::A), cond: None },
    }
}

/// The descriptors of the opcodes `0x60` to `0x6F`.
fn decode_row_6(opcode: u8) -> (i: Instruction)
    requires
        opcode / 16 == 6,
        is_legal_opcode(opcode),
    ensures
        i == spec_from_opcode(opcode),
{
    match opcode {
        0x60 => Instruction { itype: InstructionType::LD, mode: AddressMode::R_R, reg1: Some(Register::H), reg2: Some(Register::B), cond: None },
        0x61 => Instruction { itype: InstructionType::LD, mode: AddressMode::R_R, reg1: Some(Register::H), reg2: Some(Register::C), cond: None },
        0x62 => Instruction { itype: InstructionType::LD, mode: AddressMode::R_R, reg1: Some(Register::H), reg2: Some(Register::D), cond: None },
        0x63 => Instruction { itype: InstructionType::LD, mode: AddressMode::R_R, reg1: Some(Register::H), reg2: Some(Register::E), cond: None },
        0x64 => Instruction { itype: InstructionType::LD, mode: AddressMode::R_R, reg1: Some(Register::H), reg2: Some(Register::H), cond: None },
        0x65 => Instruction { itype: InstructionType::LD, mode: AddressMode::R_R, reg1: Some(Register::H), reg2: Some(Register::L), cond: None },
        0x66 => Instruction { itype: InstructionType::LD, mode: AddressMode::R_MR, reg1: Some(Register::H), reg2: Some(Register::HL), cond: None },
        0x67 => Instruction { itype: InstructionType::LD, mode: AddressMode::R_R, reg1: Some(Register::H), reg2: Some(Register::A), cond: None },
        0x68 => Instruction { itype: InstructionType::LD, mode: AddressMode::R_R, reg1: Some(Register::L), reg2: Some(Register::B), cond: None },
        0x69 => Instruction { itype: InstructionType::LD, mode: AddressMode::R_R, reg1: Some(Register::L), reg2: Some(Register::C), cond: None },
        0x6A => Instruction { itype: InstructionType::LD, mode: AddressMode::R_R, reg1: Some(Register::L), reg2: Some(Register::D), cond: None },
        0x6B => Instruction { itype: InstructionType::LD, mode: AddressMode::R_R, reg1: Some(Register::L), reg2: Some(Register::E), cond: None },
        0x6C => Instruction { itype: InstructionType::LD, mode: AddressMode::R_R, reg1: Some(Register::L), reg2: Some(Register::H), cond: None },
        0x6D => Instruction { itype: InstructionType::LD, mode: AddressMode::R_R, reg1: Some(Register::L), reg2: Some(Register::L), cond: None },
        0x6E => Instruction { itype: InstructionType::LD, mode: AddressMode::R_MR, reg1: Some(Register::L), reg2: Some(Register::HL), cond: None },
        _ => Instruction { itype: InstructionType::LD, mode: AddressMode::R_R, reg1: Some(Register::L), reg2: Some(Register::A), cond: None },
    }
}

/// The descriptors of the opcodes `0x70` to `0x7F`.
fn decode_row_7(opcode: u8) -> (i: Instruction)
    requires
        opcode / 16 == 7,
        is_legal_opcode(opcode),
    ensures
        i == spec_from_opcode(opcode),
{
    match opcode {
        0x70 => Instruction { itype: InstructionType::LD, mode: AddressMode::MR_R, reg1: Some(Register::HL), reg2: Some(Register::B), cond: None },
        0x71 => Instruction { itype: InstructionType::LD, mode: AddressMode::MR_R, reg1: Some(Register::HL), reg2: Some(Register::C), cond: None },
        0x72 => Instruction { itype: InstructionType::LD, mode: AddressMode::MR_R, reg1: Some(Register::HL), reg2: Some(Register::D), cond: None },
        0x73 => Instruction { itype: InstructionType::LD, mode: AddressMode::MR_R, reg1: Some(Register::HL), reg2: Some(Register::E), cond: None },
        0x74 => Instruction { itype: InstructionType::LD, mode: AddressMode::MR_R, reg1: Some(Register::HL), reg2: Some(Register::H), cond: None },
        0x75 => Instruction { itype: InstructionType::LD, mode: AddressMode::MR_R, reg1: Some(Register::HL), reg2: Some(Register::L), cond: None },
        0x76 => Instruction { itype: InstructionType::HALT, mode: AddressMode::IMP, reg1: None, reg2: None, cond: None },
        0x77 => Instruction { itype: InstructionType::LD, mode: AddressMode::MR_R, reg1: Some(Register::HL), reg2: Some(Register::A), cond: None },
        0x78 => Instruction { itype: InstructionType::LD, mode: AddressMode::R_R, reg1: Some(Register::A), reg2: Some(Register::B), cond: None },
        0x79 => Instruction { itype: InstructionType::LD, mode: AddressMode::R_R, reg1: Some(Register::A), reg2: Some(Register::C), cond: None },
        0x7A => Instruction { itype: InstructionType::LD, mode: AddressMode::R_R, reg1: Some(Register::A), reg2: Some(Register::D), cond: None },
        0x7B => Instruction { itype: InstructionType::LD, mode: AddressMode::R_R, reg1: Some(Register::A), reg2: Some(Register::E), cond: None },
        0x7C => Instruction { itype: InstructionType::LD, mode: AddressMode::R_R, reg1: Some(Register::A), reg2: Some(Register::H), cond: None },
        0x7D => Instruction { itype: InstructionType::LD, mode: AddressMode::R_R, reg1: Some(Register::A), reg2: Some(Register::L), cond: None },
        0x7E => Instruction { itype: InstructionType::LD, mode: AddressMode::R_MR, reg1: Some(Register::A), reg2: Some(Register::HL), cond: None },
        _ => Instruction { itype: InstructionType::LD, mode: AddressMode::R_R, reg1: Some(Register::A), reg2: Some(Register::A), cond: None },
    }
}

/// The descriptors of the opcodes `0x80` to `0x8F`.
fn decode_row_8(opcode: u8) -> (i: Instruction)
    requires
        opcode / 16 == 8,
        is_legal_opcode(opcode),
    ensures
        i == spec_from_opcode(opcode),
{
    match opcode {
        0x80 => Instruction { itype: InstructionType::ADD, mode: AddressMode::R_R, reg1: Some(Register::A), reg2: Some(Register::B), cond: None },
        0x81 => Instruction { itype: InstructionType::ADD, mode: AddressMode::R_R, reg1: Some(Register::A), reg2: Some(Register::C), cond: None },
        0x82 => Instruction { itype: InstructionType::ADD, mode: AddressMode::R_R, reg1: Some(Register::A), reg2: Some(Register::D), cond: None },
        0x83 => Instruction { itype: InstructionType::ADD, mode: AddressMode::R_R, reg1: Some(Register::A), reg2: Some(Register::E), cond: None },
        0x84 => Instruction { itype: InstructionType::ADD, mode: AddressMode::R_R, reg1: Some(Register::A), reg2: Some(Register::H), cond: None },
        0x85 => Instruction { itype: InstructionType::ADD, mode: AddressMode::R_R, reg1: Some(Register::A), reg2: Some(Register::L), cond: None },
        0x86 => Instruction { itype: InstructionType::ADD, mode: AddressMode::R_MR, reg1: Some(Register::A), reg2: Some(Register::HL), cond: None },
        0x87 => Instruction { itype: InstructionType::ADD, mode: AddressMode::R_R, reg1: Some(Register::A), reg2: Some(Register::A), cond: None },
        0x88 => Instruction { itype: InstructionType::ADC, mode: AddressMode::R_R, reg1: Some(Register::A), reg2: Some(Register::B), cond: None },
        0x89 => Instruction { itype: InstructionType::ADC, mode: AddressMode::R_R, reg1: Some(Register::A), reg2: Some(Register::C), cond: None },
        0x8A => Instruction { itype: InstructionType::ADC, mode: AddressMode::R_R, reg1: Some(Register::A), reg2: Some(Register::D), cond: None },
        0x8B => Instruction { itype: InstructionType::ADC, mode: AddressMode::R_R, reg1: Some(Register::A), reg2: Some(Register::E), cond: None },
        0x8C => Instruction { itype: InstructionType::ADC, mode: AddressMode::R_R, reg1: Some(Register::A), reg2: Some(Register::H), cond: None },
        0x8D => Instruction { itype: InstructionType::ADC, mode: AddressMode::R_R, reg1: Some(Register::A), reg2: Some(Register::L), cond: None },
        0x8E => Instruction { itype: InstructionType::ADC, mode: AddressMode::R_MR, reg1: Some(Register::A), reg2: Some(Register::HL), cond: None },
        _ => Instruction { itype: InstructionType::ADC, mode: AddressMode::R_R, reg1: Some(Register::A), reg2: Some(Register::A), cond: None },
    }
}

/// The descriptors of the opcodes `0x90` to `0x9F`.
fn decode_row_9(opcode: u8) -> (i: Instruction)
    requires
        opcode / 16 == 9,
        is_legal_opcode(opcode),
    ensures
        i == spec_from_opcode(opcode),
{
    match opcode {
        0x90 => Instruction { itype: InstructionType::SUB, mode: AddressMode::R_R, reg1: Some(Register::A), reg2: Some(Register::B), cond: None },
        0x91 => Instruction { itype: InstructionType::SUB, mode: AddressMode::R_R, reg1: Some(Register::A), reg2: Some(Register::C), cond: None },
        0x92 => Instruction { itype: InstructionType::SUB, mode: AddressMode::R_R, reg1: Some(Register::A), reg2: Some(Register::D), cond: None },
        0x93 => Instruction { itype: InstructionType::SUB, mode: AddressMode::R_R, reg1: Some(Register::A), reg2: Some(Register::E), cond: None },
        0x94 => Instruction { itype: InstructionType::SUB, mode: AddressMode::R_R, reg1: Some(Register::A), reg2: Some(Register::H), cond: None },
        0x95 => Instruction { itype: InstructionType::SUB, mode: AddressMode::R_R, reg1: Some(Register::A), reg2: Some(Register::L), cond: None },
        0x96 => Instruction { itype: InstructionType::SUB, mode: AddressMode::R_MR, reg1: Some(Register::A), reg2: Some(Register::HL), cond: None },
        0x97 => Instruction { itype: InstructionType::SUB, mode: AddressMode::R_R, reg1: Some(Register::A), reg2: Some(Register::A), cond: None },
        0x98 => Instruction { itype: InstructionType::SBC, mode: AddressMode::R_R, reg1: Some(Register::A), reg2: Some(Register::B), cond: None },
        0x99 => Instruction { itype: InstructionType::SBC, mode: AddressMode::R_R, reg1: Some(Register::A), reg2: Some(Register::C), cond: None },
        0x9A => Instruction { itype: InstructionType::SBC, mode: AddressMode::R_R, reg1: Some(Register::A), reg2: Some(Register::D), cond: None },
        0x9B => Instruction { itype: InstructionType::SBC, mode: AddressMode::R_R, reg1: Some(Register::A), reg2: Some(Register::E), cond: None },
        0x9C => Instruction { itype: InstructionType::SBC, mode: AddressMode::R_R, reg1: Some(Register::A), reg2: Some(Register::H), cond: None },
        0x9D => Instruction { itype: InstructionType::SBC, mode: AddressMode::R_R, reg1: Some(Register::A), reg2: Some(Register::L), cond: None },
        0x9E => Instruction { itype: InstructionType::SBC, mode: AddressMode::R_MR, reg1: Some(Register::A), reg2: Some(Register::HL), cond: None },
        _ => Instruction { itype: InstructionType::SBC, mode: AddressMode::R_R, reg1: Some(Register::A), reg2: Some(Register::A), cond: None },
    }
}

/// The descriptors of the opcodes `0xA0` to `0xAF`.
fn decode_row_a(opcode: u8) -> (i: Instruction)
    requires
        opcode / 16 == 10,
        is_legal_opcode(opcode),
    ensures
        i == spec_from_opcode(opcode),
{
    match opcode {
        0xA0 => Instruction { itype: InstructionType::AND, mode: AddressMode::R_R, reg1: Some(Register::A), reg2: Some(Register::B), cond: None },
        0xA1 => Instruction { itype: InstructionType::AND, mode: AddressMode::R_R, reg1: Some(Register::A), reg2: Some(Register::C), cond: None },
        0xA2 => Instruction { itype: InstructionType::AND, mode: AddressMode::R_R, reg1: Some(Register::A), reg2: Some(Register::D), cond: None },
        0xA3 => Instruction { itype: InstructionType::AND, mode: AddressMode::R_R, reg1: Some(Register::A), reg2: Some(Register::E), cond: None },
        0xA4 => Instruction { itype: InstructionType::AND, mode: AddressMode::R_R, reg1: Some(Register::A), reg2: Some(Register::H), cond: None },
        0xA5 => Instruction { itype: InstructionType::AND, mode: AddressMode::R_R, reg1: Some(Register::A), reg2: Some(Register::L), cond: None },
        0xA6 => Instruction { itype: InstructionType::AND, mode: AddressMode::R_MR, reg1: Some(Register::A), reg2: Some(Register::HL), cond: None },
        0xA7 => Instruction { itype: InstructionType::AND, mode: AddressMode::R_R, reg1: Some(Register::A), reg2: Some(Register::A), cond: None },
        0xA8 => Instruction { itype: InstructionType::XOR, mode: AddressMode::R_R, reg1: Some(Register::A), reg2: Some(Register::B), cond: None },
        0xA9 => Instruction { itype: InstructionType::XOR, mode: AddressMode::R_R, reg1: Some(Register::A), reg2: Some(Register::C), cond: None },
        0xAA => Instruction { itype: InstructionType::XOR, mode: AddressMode::R_R, reg1: Some(Register::A), reg2: Some(Register::D), cond: None },
        0xAB => Instruction { itype: InstructionType::XOR, mode: AddressMode::R_R, reg1: Some(Register::A), reg2: Some(Register::E), cond: None },
        0xAC => Instruction { itype: InstructionType::XOR, mode: AddressMode::R_R, reg1: Some(Register::A), reg2: Some(Register::H), cond: None },
        0xAD => Instruction { itype: InstructionType::XOR, mode: AddressMode::R_R, reg1: Some(Register::A), reg2: Some(Register::L), cond: None },
        0xAE => Instruction { itype: InstructionType::XOR, mode: AddressMode::R_MR, reg1: Some(Register::A), reg2: Some(Register::HL), cond: None },
        _ => Instruction { itype: InstructionType::XOR, mode: AddressMode::R_R, reg1: Some(Register::A), reg2: Some(Register::A), cond: None },
    }
}

/// The descriptors of the opcodes `0xB0` to `0xBF`.
fn decode_row_b(opcode: u8) -> (i: Instruction)
    requires
        opcode / 16 == 11,
        is_legal_opcode(opcode),
    ensures
        i == spec_from_opcode(opcode),
{
    match opcode {
        0xB0 => Instruction { itype: InstructionType::OR, mode: AddressMode::R_R, reg1: Some(Register::A), reg2: Some(Register::B), cond: None },
        0xB1 => Instruction { itype: InstructionType::OR, mode: AddressMode::R_R, reg1: Some(Register::A), reg2: Some(Register::C), cond: None },
        0xB2 => Instruction { itype: InstructionType::OR, mode: AddressMode::R_R, reg1: Some(Register::A), reg2: Some(Register::D), cond: None },
        0xB3 => Instruction { itype: InstructionType::OR, mode: AddressMode::R_R, reg1: Some(Register::A), reg2: Some(Register::E), cond: None },
        0xB4 => Instruction { itype: InstructionType::OR, mode: AddressMode::R_R, reg1: Some(Register::A), reg2: Some(Register::H), cond: None },
        0xB5 => Instruction { itype: InstructionType::OR, mode: AddressMode::R_R, reg1: Some(Register::A), reg2: Some(Register::L), cond: None },
        0xB6 => Instruction { itype: InstructionType::OR, mode: AddressMode::R_MR, reg1: Some(Register::A), reg2: Some(Register::HL), cond: None },
        0xB7 => Instruction { itype: InstructionType::OR, mode: AddressMode::R_R, reg1: Some(Register::A), reg2: Some(Register::A), cond: None },
        0xB8 => Instruction { itype: InstructionType::CP, mode: AddressMode::R_R, reg1: Some(Register::A), reg2: Some(Register::B), cond: None },
        0xB9 => Instruction { itype: InstructionType::CP, mode: AddressMode::R_R, reg1: Some(Register::A), reg2: Some(Register::C), cond: None },
        0xBA => Instruction { itype: InstructionType::CP, mode: AddressMode::R_R, reg1: Some(Register::A), reg2: Some(Register::D), cond: None },
        0xBB => Instruction { itype: InstructionType::CP, mode: AddressMode::R_R, reg1: Some(Register::A), reg2: Some(Register::E), cond: None },
        0xBC => Instruction { itype: InstructionType::CP, mode: AddressMode::R_R, reg1: Some(Register::A), reg2: Some(Register::H), cond: None },
        0xBD => Instruction { itype: InstructionType::CP, mode: AddressMode::R_R, reg1: Some(Register::A), reg2: Some(Register::L), cond: None },
        0xBE => Instruction { itype: InstructionType::CP, mode: AddressMode::R_MR, reg1: Some(Register::A), reg2: Some(Register::HL), cond: None },
        _ => Instruction { itype: InstructionType::CP, mode: AddressMode::R_R, reg1: Some(Register::A), reg2: Some(Register::A), cond: None },
    }
}

/// The descriptors of the opcodes `0xC0` to `0xCF`.
fn decode_row_c(opcode: u8) -> (i: Instruction)
    requires
        opcode / 16 == 12,
        is_legal_opcode(opcode),
    ensures
        i == spec_from_opcode(opcode),
{
    match opcode {
        0xC0 => Instruction { itype: InstructionType::RET, mode: AddressMode::IMP, reg1: None, reg2: None, cond: Some(Condition::NZ) },
        0xC1 => Instruction { itype: InstructionType::POP, mode: AddressMode::R, reg1: Some(Register::BC), reg2: None, cond: None },
        0xC2 => Instruction { itype: InstructionType::JP, mode: AddressMode::D16, reg1: None, reg2: None, cond: Some(Condition::NZ) },
        0xC3 => Instruction { itype: InstructionType::JP, mode: AddressMode::D16, reg1: None, reg2: None, cond: None },
        0xC4 => Instruction { itype: InstructionType::CALL, mode: AddressMode::D16, reg1: None, reg2: None, cond: Some(Condition::NZ) },
        0xC5 => Instruction { itype: InstructionType::PUSH, mode: AddressMode::R, reg1: Some(Register::BC), reg2: None, cond: None },
        0xC6 => Instruction { itype: InstructionType::ADD, mode: AddressMode::R_D8, reg1: Some(Register::A), reg2: None, cond: None },
        0xC7 => Instruction { itype: InstructionType::RST, mode: AddressMode::RST, reg1: None, reg2: None, cond: None },
        0xC8 => Instruction { itype: InstructionType::RET, mode: AddressMode::IMP, reg1: None, reg2: None, cond: Some(Condition::Z) },
        0xC9 => Instruction { itype: InstructionType::RET, mode: AddressMode::IMP, reg1: None, reg2: None, cond: None },
        0xCA => Instruction { itype: InstructionType::JP, mode: AddressMode::D16, reg1: None, reg2: None, cond: Some(Condition::Z) },
        0xCC => Instruction { itype: InstructionType::CALL, mode: AddressMode::D16, reg1: None, reg2: None, cond: Some(Condition::Z) },
        0xCD => Instruction { itype: InstructionType::CALL, mode: AddressMode::D16, reg1: None, reg2: None, cond: None },
        0xCE => Instruction { itype: InstructionType::ADC, mode: AddressMode::R_D8, reg1: Some(Register::A), reg2: None, cond: None },
        _ => Instruction { itype: InstructionType::RST, mode: AddressMode::RST, reg1: None, reg2: None, cond: None },
    }
}

/// The descriptors of the opcodes `0xD0` to `0xDF`.
fn decode_row_d(opcode: u8) -> (i: Instruction)
    requires
        opcode / 16 == 13,
        is_legal_opcode(opcode),
    ensures
        i == spec_from_opcode(opcode),
{
    match opcode {
        0xD0 => Instruction { itype: InstructionType::RET, mode: AddressMode::IMP, reg1: None, reg2: None, cond: Some(Condition::NC) },
        0xD1 => Instruction { itype: InstructionType::POP, mode: AddressMode::R, reg1: Some(Register::DE), reg2: None, cond: None },
        0xD2 => Instruction { itype: InstructionType::JP, mode: AddressMode::D16, reg1: None, reg2: None, cond: Some(Condition::NC) },
        0xD4 => Instruction { itype: InstructionType::CALL, mode: AddressMode::D16, reg1: None, reg2: None, cond: Some(Condition::NC) },
        0xD5 => Instruction { itype: InstructionType::PUSH, mode: AddressMode::R, reg1: Some(Register::DE), reg2: None, cond: None },
        0xD6 => Instruction { itype: InstructionType::SUB, mode: AddressMode::R_D8, reg1: Some(Register::A), reg2: None, cond: None },
        0xD7 => Instruction { itype: InstructionType::RST, mode: AddressMode::RST, reg1: None, reg2: None, cond: None },
        0xD8 => Instruction { itype: InstructionType::RET, mode: AddressMode::IMP, reg1: None, reg2: None, cond: Some(Condition::C) },
        0xD9 => Instruction { itype: InstructionType::RETI, mode: AddressMode::IMP, reg1: None, reg2: None, cond: None },
        0xDA => Instruction { itype: InstructionType::JP, mode: AddressMode::D16, reg1: None, reg2: None, cond: Some(Condition::C) },
        0xDC => Instruction { itype: InstructionType::CALL, mode: AddressMode::D16, reg1: None, reg2: None, cond: Some(Condition::C) },
        0xDE => Instruction { itype: InstructionType::SBC, mode: AddressMode::R_D8, reg1: Some(Register::A), reg2: None, cond: None },
        _ => Instruction { itype: InstructionType::RST, mode: AddressMode::RST, reg1: None, reg2: None, cond: None },
    }
}

/// The descriptors of the opcodes `0xE0` to `0xEF`.
fn decode_row_e(opcode: u8) -> (i: Instruction)
    requires
        opcode / 16 == 14,
        is_legal_opcode(opcode),
    ensures
        i == spec_from_opcode(opcode),
{
    match opcode {
        0xE0 => Instruction { itype: InstructionType::LDH, mode: AddressMode::A8_R, reg1: None, reg2: Some(Register::A), cond: None },
        0xE1 => Instruction { itype: InstructionType::POP, mode: AddressMode::R, reg1: Some(Register::HL), reg2: None, cond: None },
        0xE2 => Instruction { itype: InstructionType::LDH, mode: AddressMode::MR_R, reg1: Some(Register::C), reg2: Some(Register::A), cond: None },
        0xE5 => Instruction { itype: InstructionType::PUSH, mode: AddressMode::R, reg1: Some(Register::HL), reg2: None, cond: None },
        0xE6 => Instruction { itype: InstructionType::AND, mode: AddressMode::R_D8, reg1: Some(Register::A), reg2: None, cond: None },
        0xE7 => Instruction { itype: InstructionType::RST, mode: AddressMode::RST, reg1: None, reg2: None, cond: None },
        0xE8 => Instruction { itype: InstructionType::ADD, mode: AddressMode::R_D8, reg1: Some(Register::SP), reg2: None, cond: None },
        0xE9 => Instruction { itype: InstructionType::JP, mode: AddressMode::R, reg1: Some(Register::HL), reg2: None, cond: None },
        0xEA => Instruction { itype: InstructionType::LD, mode: AddressMode::A16_R, reg1: None, reg2: Some(Register::A), cond: None },
        0xEE => Instruction { itype: InstructionType::XOR, mode: AddressMode::R_D8, reg1: Some(Register::A), reg2: None, cond: None },
        _ => Instruction { itype: InstructionType::RST, mode: AddressMode::RST, reg1: None, reg2: None, cond: None },
    }
}

/// The descriptors of the opcodes `0xF0` to `0xFF`.
fn decode_row_f(opcode: u8) -> (i: Instruction)
    requires
        opcode / 16 == 15,
        is_legal_opcode(opcode),
    ensures
        i == spec_from_opcode(opcode),
{
    match opcode {
        0xF0 => Instruction { itype: InstructionType::LDH, mode: AddressMode::R_A8, reg1: Some(Register::A), reg2: None, cond: None },
        0xF1 => Instruction { itype: InstructionType::POP, mode: AddressMode::R, reg1: Some(Register::AF), reg2: None, cond: None },
        0xF2 => Instruction { itype: InstructionType::LDH, mode: AddressMode::R_MR, reg1: Some(Register::A), reg2: Some(Register::C), cond: None },
        0xF3 => Instruction { itype: InstructionType::DI, mode: AddressMode::IMP, reg1: None, reg2: None, cond: None },
        0xF5 => Instruction { itype: InstructionType::PUSH, mode: AddressMode::R, reg1: Some(Register::AF), reg2: None, cond: None },
        0xF6 => Instruction { itype: InstructionType::OR, mode: AddressMode::R_D8, reg1: Some(Register::A), reg2: None, cond: None },
        0xF7 => Instruction { itype: InstructionType::RST, mode: AddressMode::RST, reg1: None, reg2: None, cond: None },
        0xF8 => Instruction { itype: InstructionType::LD, mode: AddressMode::HL_SPR, reg1: Some(Register::HL), reg2: Some(Register::SP), cond: None },
        0xF9 => Instruction { itype: InstructionType::LD, mode: AddressMode::R_R, reg1: Some(Register::SP), reg2: Some(Register::HL), cond: None },
        0xFA => Instruction { itype: InstructionType::LD, mode: AddressMode::R_A16, reg1: Some(Register::A), reg2: None, cond: None },
        0xFB => Instruction { itype: InstructionType::EI, mode: AddressMode::IMP, reg1: None, reg2: None, cond: None },
        0xFE => Instruction { itype: InstructionType::CP, mode: AddressMode::R_D8, reg1: Some(Register::A), reg2: None, cond: None },
        _ => Instruction { itype: InstructionType::RST, mode: AddressMode::RST, reg1: None, reg2: None, cond: None },
    }
}

/// Decoding a prefixed opcode and encoding the descriptor again, with the
/// bit index of the opcode, gives the opcode back.
pub proof fn lemma_prefixed_decode_encode(opcode: u8)
    ensures
        spec_encode_prefixed(spec_from_opcode_prefixed(opcode), bit_index(opcode)) == opcode,
{
}

/// A prefixed descriptor and a bit index encode to an opcode that decodes to
/// the same descriptor and the same bit index.
pub proof fn lemma_prefixed_encode_decode(opcode: u8, bit: u8)
    requires
        bit < 8,
    ensures
        ({
            let d = spec_from_opcode_prefixed(opcode);
            let o = spec_encode_prefixed(d, bit);
            0 <= o < 256 && spec_from_opcode_prefixed(o as u8) == d && (takes_bit_index(d.itype) ==> bit_index(
                o as u8,
            ) == bit)
        }),
{
}

} // verus!
