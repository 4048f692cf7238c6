//! The arithmetic and logic of the processor, as functions from operands and
//! flags to a result and flags. Sums and differences are stated over the
//! integers; a result is the sum or difference modulo 256 (or 65536).

use vstd::prelude::*;
use super::register_file::Flags;
use crate::bits::lemma_byte_bits;

verus! {

/// One for a set carry, zero for a clear one.
pub open spec fn carry_in(carry: bool) -> int {
    if carry {
        1
    } else {
        0
    }
}

/// `a + v + carry` modulo 256.
pub open spec fn add8_value(a: u8, v: u8, carry: bool) -> u8 {
    ((a + v + carry_in(carry)) % 256) as u8
}

/// Whether `a + v + carry` carries out of bit 3.
pub open spec fn add8_half(a: u8, v: u8, carry: bool) -> bool {
    (a % 16) + (v % 16) + carry_in(carry) > 15
}

/// Whether `a + v + carry` carries out of bit 7.
pub open spec fn add8_carry(a: u8, v: u8, carry: bool) -> bool {
    a + v + carry_in(carry) > 255
}

/// `a - v - carry` modulo 256.
pub open spec fn sub8_value(a: u8, v: u8, carry: bool) -> u8 {
    ((a - v - carry_in(carry)) % 256) as u8
}

/// Whether `a - v - carry` borrows from bit 4.
pub open spec fn sub8_half(a: u8, v: u8, carry: bool) -> bool {
    (a % 16) < (v % 16) + carry_in(carry)
}

/// Whether `a - v - carry` borrows from beyond bit 7.
pub open spec fn sub8_carry(a: u8, v: u8, carry: bool) -> bool {
    a < v + carry_in(carry)
}

/// `ADD` and `ADC`: flags `* 0 * *`.
pub open spec fn spec_add8(a: u8, v: u8, carry: bool) -> (u8, Flags) {
    (
        add8_value(a, v, carry),
        Flags {
            zero: add8_value(a, v, carry) == 0,
            subtract: false,
            half_carry: add8_half(a, v, carry),
            carry: add8_carry(a, v, carry),
        },
    )
}

/// `SUB`, `SBC` and `CP`: flags `* 1 * *`.
pub open spec fn spec_sub8(a: u8, v: u8, carry: bool) -> (u8, Flags) {
    (
        sub8_value(a, v, carry),
        Flags {
            zero: sub8_value(a, v, carry) == 0,
            subtract: true,
            half_carry: sub8_half(a, v, carry),
            carry: sub8_carry(a, v, carry),
        },
    )
}

/// `AND`: flags `* 0 1 0`.
pub open spec fn spec_and8(a: u8, v: u8) -> (u8, Flags) {
    (a & v, Flags { zero: a & v == 0, subtract: false, half_carry: true, carry: false })
}

/// `OR`: flags `* 0 0 0`.
pub open spec fn spec_or8(a: u8, v: u8) -> (u8, Flags) {
    (a | v, Flags { zero: a | v == 0, subtract: false, half_carry: false, carry: false })
}

/// `XOR`: flags `* 0 0 0`.
pub open spec fn spec_xor8(a: u8, v: u8) -> (u8, Flags) {
    (a ^ v, Flags { zero: a ^ v == 0, subtract: false, half_carry: false, carry: false })
}

/// `INC` of a byte: flags `* 0 * -`.
pub open spec fn spec_inc8(v: u8, flags: Flags) -> (u8, Flags) {
    let r = ((v + 1) % 256) as u8;
    (r, Flags { zero: r == 0, subtract: false, half_carry: v % 16 == 15, carry: flags.carry })
}

/// `DEC` of a byte: flags `* 1 * -`.
pub open spec fn spec_dec8(v: u8, flags: Flags) -> (u8, Flags) {
    let r = ((v - 1) % 256) as u8;
    (r, Flags { zero: r == 0, subtract: true, half_carry: v % 16 == 0, carry: flags.carry })
}

/// `ADD HL,rr`: flags `- 0 * *`, with the half carry out of bit 11 and the
/// carry out of bit 15.
pub open spec fn spec_add16(hl: u16, v: u16, flags: Flags) -> (u16, Flags) {
    (
        ((hl + v) % 65536) as u16,
        Flags {
            zero: flags.zero,
            subtract: false,
            half_carry: (hl % 4096) + (v % 4096) > 4095,
            carry: hl + v > 65535,
        },
    )
}

/// The offset that the byte `e` stands for when read as a signed number.
pub open spec fn signed_offset(e: u8) -> int {
    if e < 128 {
        e as int
    } else {
        e - 256
    }
}

/// `base + e` modulo 65536, with `e` read as a signed byte.
pub open spec fn spec_add_signed(base: u16, e: u8) -> u16 {
    ((base + signed_offset(e)) % 65536) as u16
}

/// `ADD SP,e8` and `LD HL,SP+e8`: the sum of `SP` and the signed byte, with
/// flags `0 0 * *` taken from the unsigned sum of the low bytes.
pub open spec fn spec_add_sp(sp: u16, e: u8) -> (u16, Flags) {
    (
        spec_add_signed(sp, e),
        Flags {
            zero: false,
            subtract: false,
            half_carry: (sp % 16) + (e % 16) > 15,
            carry: (sp % 256) + e > 255,
        },
    )
}

/// The flags after a rotate or shift: `* 0 0 *`.
pub open spec fn shift_flags(result: u8, carry: bool) -> Flags {
    Flags { zero: result == 0, subtract: false, half_carry: false, carry }
}

/// Rotate left: bit 7 goes to the carry, and to bit 0 (`circular`) or the
/// old carry does.
pub open spec fn spec_rotate_left(v: u8, circular: bool, carry: bool) -> (u8, Flags) {
    let incoming: int = if circular {
        v as int / 128
    } else {
        carry_in(carry)
    };
    let r = ((v % 128) * 2 + incoming) as u8;
    (r, shift_flags(r, v >= 128))
}

/// Rotate right: bit 0 goes to the carry, and to bit 7 (`circular`) or the
/// old carry does.
pub open spec fn spec_rotate_right(v: u8, circular: bool, carry: bool) -> (u8, Flags) {
    let incoming: int = if circular {
        v as int % 2
    } else {
        carry_in(carry)
    };
    let r = (v / 2 + incoming * 128) as u8;
    (r, shift_flags(r, v % 2 == 1))
}

/// `SLA`: shift left, a zero comes in, bit 7 goes to the carry.
pub open spec fn spec_sla(v: u8) -> (u8, Flags) {
    let r = ((v % 128) * 2) as u8;
    (r, shift_flags(r, v >= 128))
}

/// `SRA`: shift right, bit 7 stays, bit 0 goes to the carry.
pub open spec fn spec_sra(v: u8) -> (u8, Flags) {
    let r = (v / 2 + (v / 128) * 128) as u8;
    (r, shift_flags(r, v % 2 == 1))
}

/// `SRL`: shift right, a zero comes in, bit 0 goes to the carry.
pub open spec fn spec_srl(v: u8) -> (u8, Flags) {
    let r = v / 2;
    (r, shift_flags(r, v % 2 == 1))
}

/// `SWAP`: the two nibbles change places; the carry is cleared.
pub open spec fn spec_swap(v: u8) -> (u8, Flags) {
    let r = ((v % 16) * 16 + v / 16) as u8;
    (r, shift_flags(r, false))
}

/// The byte with bit `n` alone set.
pub open spec fn bit_mask(n: u8) -> u8 {
    if n == 0 {
        1
    } else if n == 1 {
        2
    } else if n == 2 {
        4
    } else if n == 3 {
        8
    } else if n == 4 {
        16
    } else if n == 5 {
        32
    } else if n == 6 {
        64
    } else {
        128
    }
}

/// Whether bit `n` of `v` is set.
pub open spec fn bit_is_set(v: u8, n: u8) -> bool {
    (v / bit_mask(n)) % 2 == 1
}

/// `BIT n`: flags `* 0 1 -`, with Z set when the bit is clear.
pub open spec fn spec_bit(n: u8, v: u8, flags: Flags) -> Flags {
    Flags { zero: !bit_is_set(v, n), subtract: false, half_carry: true, carry: flags.carry }
}

/// `RES n`: the byte with bit `n` cleared.
pub open spec fn spec_res(n: u8, v: u8) -> u8 {
    if bit_is_set(v, n) {
        (v - bit_mask(n)) as u8
    } else {
        v
    }
}

/// `SET n`: the byte with bit `n` set.
pub open spec fn spec_set(n: u8, v: u8) -> u8 {
    if bit_is_set(v, n) {
        v
    } else {
        (v + bit_mask(n)) as u8
    }
}

/// What `DAA` adds after an addition or subtracts after a subtraction.
pub open spec fn daa_adjustment(a: u8, flags: Flags) -> int {
    if !flags.subtract {
        (if flags.half_carry || a % 16 > 9 { 0x06int } else { 0int }) + (if flags.carry || a > 0x99 {
            0x60int
        } else {
            0int
        })
    } else {
        (if flags.half_carry { 0x06int } else { 0int }) + (if flags.carry { 0x60int } else { 0int })
    }
}

/// `DAA`: brings the accumulator back to two decimal digits after an
/// addition or subtraction of such numbers. Flags `* - 0 *`.
pub open spec fn spec_daa(a: u8, flags: Flags) -> (u8, Flags) {
    let r = (if !flags.subtract {
        (a + daa_adjustment(a, flags)) % 256
    } else {
        (a - daa_adjustment(a, flags)) % 256
    }) as u8;
    (
        r,
        Flags {
            zero: r == 0,
            subtract: flags.subtract,
            half_carry: false,
            carry: flags.carry || (!flags.subtract && a > 0x99),
        },
    )
}

/// `CPL`: every bit of the accumulator is inverted. Flags `- 1 1 -`.
pub open spec fn spec_cpl(a: u8, flags: Flags) -> (u8, Flags) {
    ((255 - a) as u8, Flags { subtract: true, half_carry: true, ..flags })
}

/// `CCF`: flags `- 0 0 *`, the carry inverted.
pub open spec fn spec_ccf(flags: Flags) -> Flags {
    Flags { subtract: false, half_carry: false, carry: !flags.carry, ..flags }
}

/// `SCF`: flags `- 0 0 1`.
pub open spec fn spec_scf(flags: Flags) -> Flags {
    Flags { subtract: false, half_carry: false, carry: true, ..flags }
}

/// The four rotates of the accumulator clear Z whatever the result is.
pub open spec fn without_zero(r: (u8, Flags)) -> (u8, Flags) {
    (r.0, Flags { zero: false, ..r.1 })
}

pub fn add8(a: u8, v: u8, carry: bool) -> (r: (u8, Flags))
    ensures
        r == spec_add8(a, v, carry),
{
    proof {
        lemma_byte_bits();
    }
    let cf: u8 = if carry { 1 } else { 0 };
    let result: u8 = a.wrapping_add(v).wrapping_add(cf);
    let half_carry = ((a & 0x0F) + (v & 0x0F) + cf) > 0x0F;
    let carry_out = ((a as u16) + (v as u16) + (cf as u16)) > 0xFF;
    (result, Flags { zero: result == 0, subtract: false, half_carry, carry: carry_out })
}

pub fn sub8(a: u8, v: u8, carry: bool) -> (r: (u8, Flags))
    ensures
        r == spec_sub8(a, v, carry),
{
    proof {
        lemma_byte_bits();
    }
    let cf: u8 = if carry { 1 } else { 0 };
    let result: u8 = a.wrapping_sub(v).wrapping_sub(cf);
    let carry_out = (a as u16) < (v as u16) + (cf as u16);
    let half_carry = (a & 0x0F) < ((v & 0x0F) + cf);
    (result, Flags { zero: result == 0, subtract: true, half_carry, carry: carry_out })
}

pub fn and8(a: u8, v: u8) -> (r: (u8, Flags))
    ensures
        r == spec_and8(a, v),
{
    let result: u8 = a & v;
    (result, Flags { zero: result == 0, subtract: false, half_carry: true, carry: false })
}

pub fn or8(a: u8, v: u8) -> (r: (u8, Flags))
    ensures
        r == spec_or8(a, v),
{
    let result: u8 = a | v;
    (result, Flags { zero: result == 0, subtract: false, half_carry: false, carry: false })
}

pub fn xor8(a: u8, v: u8) -> (r: (u8, Flags))
    ensures
        r == spec_xor8(a, v),
{
    let result: u8 = a ^ v;
    (result, Flags { zero: result == 0, subtract: false, half_carry: false, carry: false })
}

pub fn inc8(v: u8, flags: Flags) -> (r: (u8, Flags))
    ensures
        r == spec_inc8(v, flags),
{
    proof {
        lemma_byte_bits();
    }
    let result: u8 = v.wrapping_add(1);
    (result, Flags { zero: result == 0, subtract: false, half_carry: (v & 0x0F) + 1 > 0x0F, carry: flags.carry })
}

pub fn dec8(v: u8, flags: Flags) -> (r: (u8, Flags))
    ensures
        r == spec_dec8(v, flags),
{
    proof {
        lemma_byte_bits();
    }
    let result: u8 = v.wrapping_sub(1);
    (result, Flags { zero: result == 0, subtract: true, half_carry: (v & 0x0F) == 0x00, carry: flags.carry })
}

pub fn add16(hl: u16, v: u16, flags: Flags) -> (r: (u16, Flags))
    ensures
        r == spec_add16(hl, v, flags),
{
    proof {
        crate::bits::lemma_word_bits();
    }
    let result: u16 = hl.wrapping_add(v);
    let carry = (hl as u32) + (v as u32) > 0xFFFF;
    let half_carry = ((hl & 0x0FFF) + (v & 0x0FFF)) > 0x0FFF;
    (result, Flags { zero: flags.zero, subtract: false, half_carry, carry })
}

/// Adds a signed byte to a word, modulo 65536.
pub fn add_signed(base: u16, e: u8) -> (r: u16)
    ensures
        r == spec_add_signed(base, e),
{
    // The signed byte, extended to sixteen bits
    let offset: u16 = if e < 128 {
        e as u16
    } else {
        0xFF00 + (e as u16)
    };
    base.wrapping_add(offset)
}

pub fn add_sp(sp: u16, e: u8) -> (r: (u16, Flags))
    ensures
        r == spec_add_sp(sp, e),
{
    proof {
        crate::bits::lemma_word_bits();
    }
    let result = add_signed(sp, e);
    let half_carry = (sp & 0x0F) + ((e as u16) & 0x0F) > 0x0F;
    let carry = (sp & 0x00FF) + (e as u16) > 0xFF;
    (result, Flags { zero: false, subtract: false, half_carry, carry })
}

pub fn rotate_left(v: u8, circular: bool, carry: bool) -> (r: (u8, Flags))
    ensures
        r == spec_rotate_left(v, circular, carry),
{
    proof {
        lemma_byte_bits();
    }
    let msb: u8 = v >> 7;
    let incoming: u8 = if circular {
        msb
    } else if carry {
        1
    } else {
        0
    };
    let result: u8 = (v << 1) + incoming;
    (result, Flags { zero: result == 0, subtract: false, half_carry: false, carry: msb != 0 })
}

pub fn rotate_right(v: u8, circular: bool, carry: bool) -> (r: (u8, Flags))
    ensures
        r == spec_rotate_right(v, circular, carry),
{
    proof {
        lemma_byte_bits();
    }
    let lsb: u8 = v & 0x01;
    let incoming: u8 = if circular {
        lsb
    } else if carry {
        1
    } else {
        0
    };
    let result: u8 = (v >> 1) + incoming * 128;
    (result, Flags { zero: result == 0, subtract: false, half_carry: false, carry: lsb != 0 })
}

pub fn shift_left_arithmetic(v: u8) -> (r: (u8, Flags))
    ensures
        r == spec_sla(v),
{
    proof {
        lemma_byte_bits();
    }
    let carry: u8 = v & 0x80;
    let result: u8 = v << 1;
    (result, Flags { zero: result == 0, subtract: false, half_carry: false, carry: carry != 0 })
}

pub fn shift_right_arithmetic(v: u8) -> (r: (u8, Flags))
    ensures
        r == spec_sra(v),
{
    proof {
        lemma_byte_bits();
    }
    let carry: u8 = v & 0x01;
    // The sign bit stays where it is
    let result: u8 = (v >> 1) + (v >> 7) * 128;
    (result, Flags { zero: result == 0, subtract: false, half_carry: false, carry: carry != 0 })
}

pub fn shift_right_logical(v: u8) -> (r: (u8, Flags))
    ensures
        r == spec_srl(v),
{
    proof {
        lemma_byte_bits();
    }
    let carry: u8 = v & 0x01;
    let result: u8 = v >> 1;
    (result, Flags { zero: result == 0, subtract: false, half_carry: false, carry: carry != 0 })
}

pub fn swap_nibbles(v: u8) -> (r: (u8, Flags))
    ensures
        r == spec_swap(v),
{
    proof {
        lemma_byte_bits();
    }
    let lsb: u8 = v & 0x0F;
    let msb: u8 = v >> 4;
    let result: u8 = lsb * 16 + msb;
    (result, Flags { zero: result == 0, subtract: false, half_carry: false, carry: false })
}

proof fn lemma_bit_mask(v: u8, n: u8)
    by (bit_vector)
    requires
        n < 8,
    ensures
        1u8 << n == bit_mask(n),
        (v & bit_mask(n) != 0) == bit_is_set(v, n),
        v & !bit_mask(n) == spec_res(n, v),
        v | bit_mask(n) == spec_set(n, v),
{
}

/// Whether bit `n` of `v` is set.
pub fn is_bit_set(v: u8, n: u8) -> (set: bool)
    requires
        n < 8,
    ensures
        set == bit_is_set(v, n),
{
    proof {
        lemma_bit_mask(v, n);
    }
    let mask: u8 = 1u8 << n;
    v & mask != 0
}

/// Tests bit `n` of `v`.
pub fn test_bit(n: u8, v: u8, flags: Flags) -> (r: Flags)
    requires
        n < 8,
    ensures
        r == spec_bit(n, v, flags),
{
    proof {
        lemma_bit_mask(v, n);
    }
    let mask: u8 = 1u8 << n;
    Flags { zero: v & mask == 0, subtract: false, half_carry: true, carry: flags.carry }
}

/// Clears bit `n` of `v`.
pub fn reset_bit(n: u8, v: u8) -> (r: u8)
    requires
        n < 8,
    ensures
        r == spec_res(n, v),
{
    proof {
        lemma_bit_mask(v, n);
    }
    let mask: u8 = 1u8 << n;
    v & !mask
}

/// Sets bit `n` of `v`.
pub fn set_bit(n: u8, v: u8) -> (r: u8)
    requires
        n < 8,
    ensures
        r == spec_set(n, v),
{
    proof {
        lemma_bit_mask(v, n);
    }
    let mask: u8 = 1u8 << n;
    v | mask
}

pub fn decimal_adjust(a: u8, flags: Flags) -> (r: (u8, Flags))
    ensures
        r == spec_daa(a, flags),
{
    proof {
        lemma_byte_bits();
    }
    let mut adjust: u8 = 0;
    let mut carry = false;
    let result: u8;

    if !flags.subtract {
        // The previous operation was an addition
        if flags.half_carry || (a & 0x0F) > 9 {
            adjust = adjust + 0x06;
        }
        if flags.carry || a > 0x99 {
            adjust = adjust + 0x60;
            carry = true;
        }
        result = a.wrapping_add(adjust);
    } else {
        // The previous operation was a subtraction
        if flags.half_carry {
            adjust = adjust + 0x06;
        }
        if flags.carry {
            adjust = adjust + 0x60;
            carry = true;
        }
        result = a.wrapping_sub(adjust);
    }

    (result, Flags { zero: result == 0, subtract: flags.subtract, half_carry: false, carry })
}

pub fn complement(a: u8, flags: Flags) -> (r: (u8, Flags))
    ensures
        r == spec_cpl(a, flags),
{
    assert(!a == 255 - a) by (bit_vector);
    (!a, Flags { zero: flags.zero, subtract: true, half_carry: true, carry: flags.carry })
}

/// In an addition, with or without carry, H is the carry into bit 4 and C
/// the carry out of bit 7: bit 4 of the sum differs from the sum of the two
/// bits 4 exactly when H is set, and the sum of the two bytes and the carry,
/// taken in nine bits, has bit 8 set exactly when C is set. In a
/// subtraction they are the borrows at the same places.
pub proof fn lemma_carries(a: u8, v: u8, carry: bool)
    by (bit_vector)
    ensures
        add8_half(a, v, carry) == ((a ^ v ^ add8_value(a, v, carry)) & 0x10 != 0),
        add8_carry(a, v, carry) == (((a as u16 + v as u16 + (if carry { 1u16 } else { 0u16 })) as u16) & 0x100 != 0),
        sub8_half(a, v, carry) == ((a ^ v ^ sub8_value(a, v, carry)) & 0x10 != 0),
        sub8_carry(a, v, carry) == (((0x200 + a as u16 - v as u16 - (if carry { 1u16 } else { 0u16 })) as u16) & 0x100
            != 0),
{
}

} // verus!
