//! The register file: eight byte registers that pair up into four words, the
//! stack pointer, the program counter, and the four status flags.

use vstd::prelude::*;
use crate::bits::{flag_byte, lemma_byte_bits, lemma_flag_byte, lemma_word_bits};

verus! {

/// The four status flags, which occupy the high nibble of register `F`.
#[derive(Copy, Clone, Debug, PartialEq, Eq, Structural)]
pub struct Flags {
    /// Z, bit 7: the result of the operation was zero.
    pub zero: bool,
    /// N, bit 6: the operation was a subtraction.
    pub subtract: bool,
    /// H, bit 5: there was a carry out of bit 3.
    pub half_carry: bool,
    /// C, bit 4: there was a carry out of the most significant bit.
    pub carry: bool,
}

impl Flags {
    pub const ZERO: u8 = 0x80;
    pub const SUBTRACT: u8 = 0x40;
    pub const HALF_CARRY: u8 = 0x20;
    pub const CARRY: u8 = 0x10;

    /// The flags as a byte; its low nibble is zero.
    pub open spec fn spec_bits(self) -> u8 {
        flag_byte(self.zero, self.subtract, self.half_carry, self.carry)
    }

    /// The flags that the high nibble of `bits` holds; the low nibble is ignored.
    pub open spec fn spec_from_bits(bits: u8) -> Flags {
        Flags {
            zero: bits & 0x80 != 0,
            subtract: bits & 0x40 != 0,
            half_carry: bits & 0x20 != 0,
            carry: bits & 0x10 != 0,
        }
    }

    /// Reads the flags out of a byte and drops its low nibble.
    pub fn from_bits_truncate(bits: u8) -> (f: Flags)
        ensures
            f == Flags::spec_from_bits(bits),
            f.spec_bits() == bits & 0xF0,
    {
        proof {
            lemma_byte_bits();
        }
        Flags {
            zero: bits & 0x80 != 0,
            subtract: bits & 0x40 != 0,
            half_carry: bits & 0x20 != 0,
            carry: bits & 0x10 != 0,
        }
    }

    /// The byte that register `F` shows.
    #[verifier::when_used_as_spec(spec_bits)]
    pub fn bits(self) -> (b: u8)
        ensures
            b == self.spec_bits(),
            b & 0x0F == 0,
    {
        proof {
            lemma_flag_byte(self.zero, self.subtract, self.half_carry, self.carry);
        }
        let z: u8 = if self.zero { 0x80 } else { 0 };
        let n: u8 = if self.subtract { 0x40 } else { 0 };
        let h: u8 = if self.half_carry { 0x20 } else { 0 };
        let c: u8 = if self.carry { 0x10 } else { 0 };
        z + n + h + c
    }
}

/// A name of a byte register, of a register pair, or of `SP` or `PC`.
#[derive(Copy, Clone, Debug, PartialEq, Eq, Structural)]
pub enum Register {
    A,
    F,
    B,
    C,
    D,
    E,
    H,
    L,
    AF,
    BC,
    DE,
    HL,
    SP,
    PC,
}

impl Register {
    /// Whether the name stands for sixteen bits.
    pub open spec fn spec_is_16bit(&self) -> bool {
        match self {
            Register::A
            | Register::F
            | Register::B
            | Register::C
            | Register::D
            | Register::E
            | Register::H
            | Register::L => false,
            Register::AF | Register::BC | Register::DE | Register::HL | Register::PC | Register::SP => true,
        }
    }

    #[verifier::when_used_as_spec(spec_is_16bit)]
    pub fn is_16bit(&self) -> (wide: bool)
        ensures
            wide == self.spec_is_16bit(),
    {
        match self {
            Register::A
            | Register::F
            | Register::B
            | Register::C
            | Register::D
            | Register::E
            | Register::H
            | Register::L => false,
            Register::AF | Register::BC | Register::DE | Register::HL | Register::PC | Register::SP => true,
        }
    }
}

/// The word whose high byte is `hi` and whose low byte is `lo`.
pub open spec fn word(hi: u8, lo: u8) -> u16 {
    (hi * 256 + lo) as u16
}

/// The high byte of a word.
pub open spec fn high_byte(value: u16) -> u8 {
    (value / 256) as u8
}

/// The low byte of a word.
pub open spec fn low_byte(value: u16) -> u8 {
    (value % 256) as u8
}

pub struct RegisterFile {
    pub a: u8,
    pub f: Flags,
    pub b: u8,
    pub c: u8,
    pub d: u8,
    pub e: u8,
    pub h: u8,
    pub l: u8,
    pub pc: u16,
    pub sp: u16,
}

impl RegisterFile {
    /// The value of a byte register.
    pub open spec fn spec_read8(&self, reg: Register) -> u8
        recommends
            !reg.spec_is_16bit(),
    {
        match reg {
            Register::A => self.a,
            Register::F => self.f.spec_bits(),
            Register::B => self.b,
            Register::C => self.c,
            Register::D => self.d,
            Register::E => self.e,
            Register::H => self.h,
            _ => self.l,
        }
    }

    /// The value of a pair (high register first), of `SP` or of `PC`.
    pub open spec fn spec_read16(&self, reg: Register) -> u16
        recommends
            reg.spec_is_16bit(),
    {
        match reg {
            Register::AF => word(self.a, self.f.spec_bits()),
            Register::BC => word(self.b, self.c),
            Register::DE => word(self.d, self.e),
            Register::HL => word(self.h, self.l),
            Register::PC => self.pc,
            _ => self.sp,
        }
    }

    /// The file after `value` is stored in a byte register. A store to `F`
    /// keeps the high nibble only.
    pub open spec fn spec_write8(self, reg: Register, value: u8) -> RegisterFile
        recommends
            !reg.spec_is_16bit(),
    {
        match reg {
            Register::A => RegisterFile { a: value, ..self },
            Register::F => RegisterFile { f: Flags::spec_from_bits(value), ..self },
            Register::B => RegisterFile { b: value, ..self },
            Register::C => RegisterFile { c: value, ..self },
            Register::D => RegisterFile { d: value, ..self },
            Register::E => RegisterFile { e: value, ..self },
            Register::H => RegisterFile { h: value, ..self },
            _ => RegisterFile { l: value, ..self },
        }
    }

    /// The file after `value` is stored in a pair, in `SP` or in `PC`. A store
    /// to `AF` keeps only the high nibble of the low byte.
    pub open spec fn spec_write16(self, reg: Register, value: u16) -> RegisterFile
        recommends
            reg.spec_is_16bit(),
    {
        match reg {
            Register::AF => RegisterFile {
                a: high_byte(value),
                f: Flags::spec_from_bits(low_byte(value)),
                ..self
            },
            Register::BC => RegisterFile { b: high_byte(value), c: low_byte(value), ..self },
            Register::DE => RegisterFile { d: high_byte(value), e: low_byte(value), ..self },
            Register::HL => RegisterFile { h: high_byte(value), l: low_byte(value), ..self },
            Register::PC => RegisterFile { pc: value, ..self },
            _ => RegisterFile { sp: value, ..self },
        }
    }

    /// The state in which the boot program leaves the registers.
    pub open spec fn spec_new() -> RegisterFile {
        RegisterFile {
            a: 0x01,
            f: Flags { zero: true, subtract: false, half_carry: true, carry: true },
            b: 0x00,
            c: 0x13,
            d: 0x00,
            e: 0xD8,
            h: 0x01,
            l: 0x4D,
            pc: 0x0100,
            sp: 0xFFFE,
        }
    }

    pub fn new() -> (r: RegisterFile)
        ensures
            r == RegisterFile::spec_new(),
            r.f.spec_bits() == 0xB0,
    {
        RegisterFile {
            a: 0x01,
            f: Flags { zero: true, subtract: false, half_carry: true, carry: true },
            b: 0,
            c: 0x13,
            d: 0,
            e: 0xD8,
            h: 0x01,
            l: 0x4D,
            pc: 0x100,
            sp: 0xFFFE,
        }
    }

    #[verifier::when_used_as_spec(spec_read8)]
    pub fn read8(&self, reg: Register) -> (value: u8)
        requires
            !reg.spec_is_16bit(),
        ensures
            value == self.spec_read8(reg),
    {
        match reg {
            Register::A => self.a,
            Register::F => self.f.bits(),
            Register::B => self.b,
            Register::C => self.c,
            Register::D => self.d,
            Register::E => self.e,
            Register::H => self.h,
            _ => self.l,
        }
    }

    #[verifier::when_used_as_spec(spec_read16)]
    pub fn read16(&self, reg: Register) -> (value: u16)
        requires
            reg.spec_is_16bit(),
        ensures
            value == self.spec_read16(reg),
    {
        proof {
            lemma_word_bits();
        }
        match reg {
            Register::AF => ((self.a as u16) << 8) | (self.f.bits() as u16),
            Register::BC => ((self.b as u16) << 8) | (self.c as u16),
            Register::DE => ((self.d as u16) << 8) | (self.e as u16),
            Register::HL => ((self.h as u16) << 8) | (self.l as u16),
            Register::PC => self.pc,
            _ => self.sp,
        }
    }

    pub fn write8(&mut self, reg: Register, value: u8)
        requires
            !reg.spec_is_16bit(),
        ensures
            *final(self) == old(self).spec_write8(reg, value),
    {
        match reg {
            Register::A => self.a = value,
            Register::F => self.f = Flags::from_bits_truncate(value),
            Register::B => self.b = value,
            Register::C => self.c = value,
            Register::D => self.d = value,
            Register::E => self.e = value,
            Register::H => self.h = value,
            _ => self.l = value,
        }
    }

    pub fn write16(&mut self, reg: Register, value: u16)
        requires
            reg.spec_is_16bit(),
        ensures
            *final(self) == old(self).spec_write16(reg, value),
    {
        proof {
            lemma_word_bits();
        }
        let lo: u8 = (value & 0x00FF) as u8;
        let hi: u8 = ((value & 0xFF00) >> 8) as u8;

        match reg {
            Register::AF => {
                self.a = hi;
                self.f = Flags::from_bits_truncate(lo);
            },
            Register::BC => {
                self.b = hi;
                self.c = lo;
            },
            Register::DE => {
                self.d = hi;
                self.e = lo;
            },
            Register::HL => {
                self.h = hi;
                self.l = lo;
            },
            Register::PC => self.pc = value,
            _ => self.sp = value,
        }
    }

    /// The zero flag (Z).
    pub open spec fn spec_zf(&self) -> bool {
        self.f.zero
    }

    /// The subtract flag (N).
    pub open spec fn spec_nf(&self) -> bool {
        self.f.subtract
    }

    /// The half-carry flag (H).
    pub open spec fn spec_hf(&self) -> bool {
        self.f.half_carry
    }

    /// The carry flag (C).
    pub open spec fn spec_cf(&self) -> bool {
        self.f.carry
    }

    #[verifier::when_used_as_spec(spec_zf)]
    pub fn zf(&self) -> (z: bool)
        ensures
            z == self.f.zero,
    {
        self.f.zero
    }

    #[verifier::when_used_as_spec(spec_nf)]
    pub fn nf(&self) -> (n: bool)
        ensures
            n == self.f.subtract,
    {
        self.f.subtract
    }

    #[verifier::when_used_as_spec(spec_hf)]
    pub fn hf(&self) -> (h: bool)
        ensures
            h == self.f.half_carry,
    {
        self.f.half_carry
    }

    #[verifier::when_used_as_spec(spec_cf)]
    pub fn cf(&self) -> (c: bool)
        ensures
            c == self.f.carry,
    {
        self.f.carry
    }

    pub fn set_zf(&mut self, value: bool)
        ensures
            *final(self) == (RegisterFile { f: Flags { zero: value, ..old(self).f }, ..*old(self) }),
    {
        self.f.zero = value;
    }

    pub fn set_nf(&mut self, value: bool)
        ensures
            *final(self) == (RegisterFile { f: Flags { subtract: value, ..old(self).f }, ..*old(self) }),
    {
        self.f.subtract = value;
    }

    pub fn set_hf(&mut self, value: bool)
        ensures
            *final(self) == (RegisterFile { f: Flags { half_carry: value, ..old(self).f }, ..*old(self) }),
    {
        self.f.half_carry = value;
    }

    pub fn set_cf(&mut self, value: bool)
        ensures
            *final(self) == (RegisterFile { f: Flags { carry: value, ..old(self).f }, ..*old(self) }),
    {
        self.f.carry = value;
    }
}

/// Whatever is written to `F`, directly or through `AF`, the low nibble of
/// `F` reads as zero afterwards.
pub proof fn lemma_f_low_nibble_is_zero(regs: RegisterFile, value: u8, wide: u16)
    ensures
        regs.spec_write8(Register::F, value).spec_read8(Register::F) & 0x0F == 0,
        regs.spec_write16(Register::AF, wide).spec_read8(Register::F) & 0x0F == 0,
        regs.spec_write8(Register::F, value).spec_read8(Register::F) == value & 0xF0,
{
    let f = Flags::spec_from_bits(value);
    lemma_flag_byte(f.zero, f.subtract, f.half_carry, f.carry);
    let g = Flags::spec_from_bits(low_byte(wide));
    lemma_flag_byte(g.zero, g.subtract, g.half_carry, g.carry);
    lemma_byte_bits();
}

/// A word written to a pair, to `SP` or to `PC` is read back unchanged, but
/// for `AF`, which gives back the word with its low nibble cleared.
pub proof fn lemma_write16_read16(regs: RegisterFile, reg: Register, value: u16)
    requires
        reg.spec_is_16bit(),
    ensures
        reg != Register::AF ==> regs.spec_write16(reg, value).spec_read16(reg) == value,
        reg == Register::AF ==> regs.spec_write16(reg, value).spec_read16(reg) == value & 0xFFF0,
        reg == Register::AF ==> regs.spec_write16(reg, value).spec_read16(reg) == value - value % 16,
{
    if reg == Register::AF {
        let f = Flags::spec_from_bits(low_byte(value));
        lemma_flag_byte(f.zero, f.subtract, f.half_carry, f.carry);
        lemma_byte_bits();
        let lo = low_byte(value);
        assert(f.spec_bits() == lo - lo % 16);
        assert(value & 0xFFF0 == value - value % 16) by (bit_vector);
    }
}

/// A byte written to a byte register is read back unchanged, but for `F`,
/// which gives back the byte with its low nibble cleared.
pub proof fn lemma_write8_read8(regs: RegisterFile, reg: Register, value: u8)
    requires
        !reg.spec_is_16bit(),
    ensures
        reg != Register::F ==> regs.spec_write8(reg, value).spec_read8(reg) == value,
        reg == Register::F ==> regs.spec_write8(reg, value).spec_read8(reg) == value & 0xF0,
{
    if reg == Register::F {
        let f = Flags::spec_from_bits(value);
        lemma_flag_byte(f.zero, f.subtract, f.half_carry, f.carry);
        lemma_byte_bits();
    }
}

} // verus!
