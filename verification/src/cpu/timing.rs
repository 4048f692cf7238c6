//! Lengths and durations of instructions: what the interpreter spends on an
//! instruction, from its descriptor, and what the processor's manual gives
//! for its opcode. The two are proved equal, with the exceptions that the
//! laws name.

use vstd::prelude::*;
use super::instructions::{
    is_legal_opcode, spec_from_opcode, spec_from_opcode_prefixed, AddressMode, Condition, Instruction,
    InstructionType,
};
use super::register_file::{Flags, Register};

verus! {

/// Whether a branch with this condition is taken under these flags. A branch
/// without a condition always is.
pub open spec fn condition_holds(cond: Option<Condition>, flags: Flags) -> bool {
    match cond {
        None => true,
        Some(Condition::C) => flags.carry,
        Some(Condition::NC) => !flags.carry,
        Some(Condition::NZ) => !flags.zero,
        Some(Condition::Z) => flags.zero,
    }
}

/// Whether the option holds a byte register.
pub open spec fn is_r8(reg: Option<Register>) -> bool {
    reg matches Some(r) && !r.spec_is_16bit()
}

/// Whether the option holds a pair, `SP` or `PC`.
pub open spec fn is_r16(reg: Option<Register>) -> bool {
    reg matches Some(r) && r.spec_is_16bit()
}

/// Whether the option holds a register that can give an address: a pair, or
/// `C`, which stands for the address `0xFF00 + C`.
pub open spec fn is_pointer(reg: Option<Register>) -> bool {
    reg == Some(Register::C) || is_r16(reg)
}

/// The modes whose result goes to memory.
pub open spec fn writes_memory(mode: AddressMode) -> bool {
    match mode {
        AddressMode::MR_R
        | AddressMode::MR
        | AddressMode::MR_D8
        | AddressMode::HLI_R
        | AddressMode::HLD_R
        | AddressMode::A8_R
        | AddressMode::A16_R
        | AddressMode::D16_R => true,
        _ => false,
    }
}

/// What the operand resolver relies on: the registers that each mode needs
/// are there and have the width that the mode expects.
pub open spec fn mode_shape(i: Instruction, opcode: u8) -> bool {
    match i.mode {
        AddressMode::IMP | AddressMode::D8 | AddressMode::D16 => true,
        AddressMode::R => i.reg1 is Some,
        AddressMode::R_R => i.reg1 is Some && i.reg2 is Some && is_r16(i.reg1) == is_r16(i.reg2),
        AddressMode::R_D8 => i.reg1 is Some,
        AddressMode::R_D16 => is_r16(i.reg1),
        AddressMode::R_HLI | AddressMode::R_HLD => i.reg1 == Some(Register::A) && i.reg2 == Some(Register::HL),
        AddressMode::HLI_R | AddressMode::HLD_R => i.reg1 == Some(Register::HL) && i.reg2 == Some(Register::A),
        AddressMode::HL_SPR => i.reg1 == Some(Register::HL),
        AddressMode::MR_R => is_pointer(i.reg1) && is_r8(i.reg2),
        AddressMode::R_MR => is_r8(i.reg1) && is_pointer(i.reg2),
        AddressMode::R_A8 => i.reg1 == Some(Register::A),
        AddressMode::A8_R => i.reg2 == Some(Register::A),
        AddressMode::MR | AddressMode::MR_D8 => i.reg1 == Some(Register::HL),
        AddressMode::A16_R | AddressMode::D16_R => i.reg2 == Some(Register::A) || i.reg2 == Some(Register::SP),
        AddressMode::R_A16 => i.reg1 == Some(Register::A),
        AddressMode::RST => opcode >= 0xC0 && opcode % 8 == 7,
    }
}

/// What the operation handlers rely on: each operation comes with one of the
/// modes and registers that it can work with.
pub open spec fn operation_shape(i: Instruction) -> bool {
    match i.itype {
        InstructionType::NONE | InstructionType::CB | InstructionType::JPHL | InstructionType::ERR => false,
        InstructionType::INC | InstructionType::DEC => i.mode == AddressMode::R || i.mode == AddressMode::MR,
        InstructionType::ADD => {
            ||| i.reg1 == Some(Register::A) && (i.mode == AddressMode::R_R || i.mode == AddressMode::R_MR || i.mode
                == AddressMode::R_D8)
            ||| i.reg1 == Some(Register::HL) && i.mode == AddressMode::R_R
            ||| i.reg1 == Some(Register::SP) && i.mode == AddressMode::R_D8
        },
        InstructionType::ADC
        | InstructionType::SUB
        | InstructionType::SBC
        | InstructionType::AND
        | InstructionType::XOR
        | InstructionType::OR
        | InstructionType::CP => i.reg1 == Some(Register::A) && (i.mode == AddressMode::R_R || i.mode
            == AddressMode::R_MR || i.mode == AddressMode::R_D8),
        InstructionType::LD => {
            ||| i.mode == AddressMode::R_D16
            ||| i.mode == AddressMode::MR_R && is_r16(i.reg1)
            ||| i.mode == AddressMode::A16_R
            ||| i.mode == AddressMode::R_MR && is_r16(i.reg2)
            ||| i.mode == AddressMode::R_D8 && is_r8(i.reg1)
            ||| i.mode == AddressMode::HLI_R
            ||| i.mode == AddressMode::HLD_R
            ||| i.mode == AddressMode::R_HLI
            ||| i.mode == AddressMode::R_HLD
            ||| i.mode == AddressMode::MR_D8
            ||| i.mode == AddressMode::R_R
            ||| i.mode == AddressMode::HL_SPR
            ||| i.mode == AddressMode::R_A16
        },
        InstructionType::LDH => {
            ||| i.mode == AddressMode::A8_R
            ||| i.mode == AddressMode::MR_R && i.reg1 == Some(Register::C) && i.reg2 == Some(Register::A)
            ||| i.mode == AddressMode::R_A8
            ||| i.mode == AddressMode::R_MR && i.reg1 == Some(Register::A) && i.reg2 == Some(Register::C)
        },
        InstructionType::JP => i.mode == AddressMode::D16 || (i.mode == AddressMode::R && i.reg1 == Some(
            Register::HL,
        ) && i.cond is None),
        InstructionType::JR => i.mode == AddressMode::D8,
        InstructionType::CALL => i.mode == AddressMode::D16,
        InstructionType::RST => i.mode == AddressMode::RST && i.cond is None,
        InstructionType::RET => i.mode == AddressMode::IMP,
        InstructionType::RETI => i.mode == AddressMode::IMP && i.cond is None,
        InstructionType::POP | InstructionType::PUSH => i.mode == AddressMode::R && is_r16(i.reg1),
        InstructionType::DAA => i.mode == AddressMode::R && i.reg1 == Some(Register::A),
        InstructionType::RLC
        | InstructionType::RRC
        | InstructionType::RL
        | InstructionType::RR
        | InstructionType::SLA
        | InstructionType::SRA
        | InstructionType::SWAP
        | InstructionType::SRL
        | InstructionType::BIT
        | InstructionType::RES
        | InstructionType::SET => (i.mode == AddressMode::R && is_r8(i.reg1)) || i.mode == AddressMode::MR,
        _ => i.mode == AddressMode::IMP,
    }
}

/// A descriptor that the interpreter can run, for the opcode it came from.
/// No descriptor names `PC` or `F`: the program counter is written by jumps,
/// calls and returns only, and `F` through the flags or through `AF`.
pub open spec fn shape_ok(i: Instruction, opcode: u8) -> bool {
    &&& mode_shape(i, opcode)
    &&& operation_shape(i)
    &&& i.reg1 != Some(Register::PC) && i.reg2 != Some(Register::PC)
    &&& i.reg1 != Some(Register::F) && i.reg2 != Some(Register::F)
}

/// Every descriptor of the unprefixed table has the shape that the
/// interpreter relies on.
pub proof fn lemma_decoded_shape(opcode: u8)
    requires
        is_legal_opcode(opcode),
    ensures
        shape_ok(spec_from_opcode(opcode), opcode),
{
}

/// Every descriptor of the prefixed table has the shape that the interpreter
/// relies on.
pub proof fn lemma_decoded_prefixed_shape(opcode: u8)
    ensures
        shape_ok(spec_from_opcode_prefixed(opcode), opcode),
{
}

/// The bytes behind the opcode that belong to the instruction, and past
/// which the operand resolver moves the program counter: the data of the
/// modes that take data there, and the second byte of `STOP`, which is
/// skipped and not read.
pub open spec fn operand_bytes(i: Instruction) -> nat {
    if i.itype == InstructionType::STOP {
        1
    } else {
        match i.mode {
            AddressMode::R_D8
            | AddressMode::D8
            | AddressMode::HL_SPR
            | AddressMode::R_A8
            | AddressMode::A8_R
            | AddressMode::MR_D8 => 1,
            AddressMode::R_D16
            | AddressMode::D16
            | AddressMode::A16_R
            | AddressMode::D16_R
            | AddressMode::R_A16 => 2,
            _ => 0,
        }
    }
}

/// The memory cycles that the operand resolver spends.
pub open spec fn operand_cycles(mode: AddressMode) -> nat {
    match mode {
        AddressMode::R_D8
        | AddressMode::D8
        | AddressMode::HL_SPR
        | AddressMode::A8_R
        | AddressMode::MR_D8
        | AddressMode::R_HLI
        | AddressMode::R_HLD
        | AddressMode::R_MR
        | AddressMode::MR => 1,
        AddressMode::R_D16 | AddressMode::D16 | AddressMode::A16_R | AddressMode::D16_R | AddressMode::R_A8 => 2,
        AddressMode::R_A16 => 3,
        _ => 0,
    }
}

/// The memory cycles that the operation handler spends, for a branch that
/// is `taken` or not.
pub open spec fn execute_cycles(i: Instruction, taken: bool) -> nat {
    match i.itype {
        InstructionType::INC | InstructionType::DEC => if i.mode == AddressMode::MR || is_r16(i.reg1) {
            1
        } else {
            0
        },
        InstructionType::LD => if writes_memory(i.mode) {
            if is_r16(i.reg2) {
                2
            } else {
                1
            }
        } else if i.mode == AddressMode::HL_SPR || (i.mode == AddressMode::R_R && is_r16(i.reg1)) {
            1
        } else {
            0
        },
        InstructionType::LDH => if writes_memory(i.mode) {
            1
        } else {
            0
        },
        InstructionType::ADD => if i.reg1 == Some(Register::SP) {
            2
        } else if i.reg1 == Some(Register::HL) {
            1
        } else {
            0
        },
        InstructionType::JP | InstructionType::JR => if taken {
            1
        } else {
            0
        },
        InstructionType::CALL | InstructionType::RET | InstructionType::RETI => if taken {
            3
        } else {
            0
        },
        InstructionType::RST | InstructionType::PUSH => 3,
        InstructionType::POP => 2,
        InstructionType::RLC
        | InstructionType::RRC
        | InstructionType::RL
        | InstructionType::RR
        | InstructionType::SLA
        | InstructionType::SRA
        | InstructionType::SWAP
        | InstructionType::SRL
        | InstructionType::RES
        | InstructionType::SET => if i.mode == AddressMode::MR {
            1
        } else {
            0
        },
        _ => 0,
    }
}

/// The memory cycles that one instruction takes in the interpreter: the
/// opcode fetch (two for a prefixed opcode), the operands, and the operation.
pub open spec fn instruction_cycles(i: Instruction, prefixed: bool, taken: bool) -> nat {
    (if prefixed { 2nat } else { 1nat }) + operand_cycles(i.mode) + execute_cycles(i, taken)
}

/// The length in bytes of the instruction that starts with `opcode`, as the
/// processor's manual gives it. The prefix `0xCB` counts with the byte that
/// follows it.
pub open spec fn canonical_length(opcode: u8) -> nat {
    let x = opcode as int / 64;
    let y = (opcode as int / 8) % 8;
    let z = opcode as int % 8;
    let q = y % 2;
    if x == 1 || x == 2 {
        1
    } else if x == 0 {
        if z == 0 {
            if y == 0 {
                1
            } else if y == 1 {
                3
            } else {
                2
            }
        } else if z == 1 {
            if q == 0 {
                3
            } else {
                1
            }
        } else if z == 6 {
            2
        } else {
            1
        }
    } else {
        if z == 0 {
            if y < 4 {
                1
            } else {
                2
            }
        } else if z == 1 {
            1
        } else if z == 2 {
            if y == 4 || y == 6 {
                1
            } else {
                3
            }
        } else if z == 3 {
            if y == 0 {
                3
            } else if y == 1 {
                2
            } else {
                1
            }
        } else if z == 4 {
            3
        } else if z == 5 {
            if q == 0 {
                1
            } else {
                3
            }
        } else if z == 6 {
            2
        } else {
            1
        }
    }
}

/// The memory cycles of the unprefixed instruction `opcode`, as the
/// processor's manual gives them; a conditional branch takes longer when it
/// is `taken`.
pub open spec fn canonical_cycles(opcode: u8, taken: bool) -> nat {
    let x = opcode as int / 64;
    let y = (opcode as int / 8) % 8;
    let z = opcode as int % 8;
    let p = y / 2;
    let q = y % 2;
    if x == 1 {
        if y == 6 && z == 6 {
            1
        } else if y == 6 || z == 6 {
            2
        } else {
            1
        }
    } else if x == 2 {
        if z == 6 {
            2
        } else {
            1
        }
    } else if x == 0 {
        if z == 0 {
            if y == 0 || y == 2 {
                1
            } else if y == 1 {
                5
            } else if y == 3 || taken {
                3
            } else {
                2
            }
        } else if z == 1 {
            if q == 0 {
                3
            } else {
                2
            }
        } else if z == 2 || z == 3 {
            2
        } else if z == 4 || z == 5 {
            if y == 6 {
                3
            } else {
                1
            }
        } else if z == 6 {
            if y == 6 {
                3
            } else {
                2
            }
        } else {
            1
        }
    } else {
        if z == 0 {
            if y < 4 {
                if taken {
                    5
                } else {
                    2
                }
            } else if y == 5 {
                4
            } else {
                3
            }
        } else if z == 1 {
            if q == 0 {
                3
            } else if p < 2 {
                4
            } else if p == 2 {
                1
            } else {
                2
            }
        } else if z == 2 {
            if y < 4 {
                if taken {
                    4
                } else {
                    3
                }
            } else if y == 4 || y == 6 {
                2
            } else {
                4
            }
        } else if z == 3 {
            if y == 0 {
                4
            } else {
                1
            }
        } else if z == 4 {
            if taken {
                6
            } else {
                3
            }
        } else if z == 5 {
            if q == 0 {
                4
            } else {
                6
            }
        } else if z == 6 {
            2
        } else {
            4
        }
    }
}

/// The memory cycles of the instruction made of the prefix `0xCB` and
/// `opcode`, as the processor's manual gives them.
pub open spec fn canonical_prefixed_cycles(opcode: u8) -> nat {
    if opcode % 8 != 6 {
        2
    } else if 0x40 <= opcode < 0x80 {
        3
    } else {
        4
    }
}

/// The conditional returns, which the interpreter runs one cycle short of
/// the manual, and `JP HL`, which it charges the branch cycle that the manual
/// does not.
pub open spec fn timing_differs(opcode: u8) -> bool {
    opcode == 0xC0 || opcode == 0xC8 || opcode == 0xD0 || opcode == 0xD8 || opcode == 0xE9
}

/// The opcode and the bytes behind it that belong to the instruction are
/// the length of the instruction in the manual, for every opcode of the
/// unprefixed table.
pub proof fn lemma_length_is_canonical(opcode: u8)
    requires
        is_legal_opcode(opcode),
    ensures
        1 + operand_bytes(spec_from_opcode(opcode)) == canonical_length(opcode),
{
}

/// A prefixed instruction is two bytes long: no operand follows the opcode.
pub proof fn lemma_prefixed_length_is_canonical(opcode: u8)
    ensures
        2 + operand_bytes(spec_from_opcode_prefixed(opcode)) == canonical_length(0xCB),
{
}

/// The memory cycles that the interpreter spends on an unprefixed
/// instruction are those of the manual, branch taken or not, for every
/// opcode but the conditional returns and `JP HL`.
pub proof fn lemma_cycles_are_canonical(opcode: u8, taken: bool)
    requires
        is_legal_opcode(opcode),
        !timing_differs(opcode),
        spec_from_opcode(opcode).cond is None ==> taken,
    ensures
        instruction_cycles(spec_from_opcode(opcode), false, taken) == canonical_cycles(opcode, taken),
{
}

/// The memory cycles that the interpreter spends on a prefixed instruction
/// are those of the manual.
pub proof fn lemma_prefixed_cycles_are_canonical(opcode: u8, taken: bool)
    ensures
        instruction_cycles(spec_from_opcode_prefixed(opcode), true, taken) == canonical_prefixed_cycles(opcode),
{
}

/// No unprefixed instruction takes more than six memory cycles.
pub proof fn lemma_cycles_bound(opcode: u8, taken: bool)
    requires
        is_legal_opcode(opcode),
    ensures
        instruction_cycles(spec_from_opcode(opcode), false, taken) <= 6,
{
}

/// No prefixed instruction takes more than four memory cycles.
pub proof fn lemma_prefixed_cycles_bound(opcode: u8, taken: bool)
    ensures
        instruction_cycles(spec_from_opcode_prefixed(opcode), true, taken) <= 4,
{
}

} // verus!
