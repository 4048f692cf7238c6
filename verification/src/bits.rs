//! Facts about bytes and words that the solver only sees bit by bit.

use vstd::prelude::*;

verus! {

/// The byte that holds the four status flags in its high nibble.
pub open spec fn flag_byte(z: bool, n: bool, h: bool, c: bool) -> u8 {
    ((if z { 0x80int } else { 0int }) + (if n { 0x40int } else { 0int }) + (if h { 0x20int } else { 0int })
        + (if c { 0x10int } else { 0int })) as u8
}

/// Masks and shifts on a byte, read as arithmetic.
pub proof fn lemma_byte_bits()
    by (bit_vector)
    ensures
        forall|v: u8| #![trigger v & 0x80] (v & 0x80 != 0) == (v >= 128),
        forall|v: u8| #![trigger v & 0x40] (v & 0x40 != 0) == ((v / 64) % 2 == 1),
        forall|v: u8| #![trigger v & 0x20] (v & 0x20 != 0) == ((v / 32) % 2 == 1),
        forall|v: u8| #![trigger v & 0x10] (v & 0x10 != 0) == ((v / 16) % 2 == 1),
        forall|v: u8| #![trigger v & 0x0F] v & 0x0F == v % 16,
        forall|v: u8| #![trigger v & 0xF0] v & 0xF0 == v - v % 16,
        forall|v: u8| #![trigger v & 0x01] v & 0x01 == v % 2,
        forall|v: u8| #![trigger v & 0x02] (v & 0x02 != 0) == ((v / 2) % 2 == 1),
        forall|v: u8| #![trigger v & 0x04] (v & 0x04 != 0) == ((v / 4) % 2 == 1),
        forall|v: u8| #![trigger v & 0x08] (v & 0x08 != 0) == ((v / 8) % 2 == 1),
        forall|v: u8| #![trigger v & 0x07] v & 0x07 == v % 8,
        forall|v: u8| #![trigger v & 0xFE] v & 0xFE == v - v % 2,
        forall|v: u8| #![trigger (v & 0xF0) >> 4u8] (v & 0xF0) >> 4u8 == v / 16,
        forall|v: u8| #![trigger (v >> 3u8) & 0x07] (v >> 3u8) & 0x07 == (v / 8) % 8,
        forall|v: u8| #![trigger v >> 7u8] v >> 7u8 == v / 128,
        forall|v: u8| #![trigger v >> 1u8] v >> 1u8 == v / 2,
        forall|v: u8| #![trigger v >> 4u8] v >> 4u8 == v / 16,
        forall|v: u8| #![trigger v << 1u8] v << 1u8 == (v % 128) * 2,
        forall|v: u8| #![trigger v << 4u8] v << 4u8 == (v % 16) * 16,
        forall|v: u8| #![trigger v << 7u8] v << 7u8 == (v % 2) * 128,
{
}

/// Splitting a word into bytes and joining two bytes into a word.
pub proof fn lemma_word_bits()
    by (bit_vector)
    ensures
        forall|v: u16| #![trigger v & 0x00FF] v & 0x00FF == v % 256,
        forall|v: u16| #![trigger v >> 8u16] v >> 8u16 == v / 256,
        forall|v: u16| #![trigger (v & 0xFF00) >> 8u16] (v & 0xFF00) >> 8u16 == v / 256,
        forall|v: u16| #![trigger v & 0x0F] v & 0x0F == v % 16,
        forall|v: u16| #![trigger v & 0x000F] v & 0x000F == v % 16,
        forall|v: u16| #![trigger v & 0x0FFF] v & 0x0FFF == v % 4096,
        forall|v: u16| #![trigger v & 0x0200] (v & 0x0200 != 0) == ((v / 512) % 2 == 1),
        forall|v: u16| #![trigger v & 0x0080] (v & 0x0080 != 0) == ((v / 128) % 2 == 1),
        forall|v: u16| #![trigger v & 0x0020] (v & 0x0020 != 0) == ((v / 32) % 2 == 1),
        forall|v: u16| #![trigger v & 0x0008] (v & 0x0008 != 0) == ((v / 8) % 2 == 1),
        forall|v: u16| #![trigger v | 0xFF00] v < 256 ==> v | 0xFF00 == 0xFF00 + v,
        forall|hi: u16, lo: u16| #![trigger (hi << 8u16) | lo] hi < 256 && lo < 256 ==> (hi << 8u16) | lo == hi * 256 + lo,
        forall|hi: u16, lo: u16| #![trigger lo | (hi << 8u16)] hi < 256 && lo < 256 ==> lo | (hi << 8u16) == hi * 256 + lo,
{
}

/// The low nibble of a flag byte is zero, and each flag is read back from its bit.
pub proof fn lemma_flag_byte(z: bool, n: bool, h: bool, c: bool)
    ensures
        flag_byte(z, n, h, c) & 0x0F == 0,
        flag_byte(z, n, h, c) % 16 == 0,
        (flag_byte(z, n, h, c) & 0x80 != 0) == z,
        (flag_byte(z, n, h, c) & 0x40 != 0) == n,
        (flag_byte(z, n, h, c) & 0x20 != 0) == h,
        (flag_byte(z, n, h, c) & 0x10 != 0) == c,
{
    lemma_byte_bits();
}

/// Whether the bit of weight `weight` (a power of two) is set in `v`.
pub open spec fn has_bit(v: int, weight: int) -> bool {
    (v / weight) % 2 == 1
}

/// The byte whose bits, from bit 7 down to bit 0, are the eight flags.
pub open spec fn byte_of_bits(b7: bool, b6: bool, b5: bool, b4: bool, b3: bool, b2: bool, b1: bool, b0: bool) -> u8 {
    ((if b7 { 0x80int } else { 0int }) + (if b6 { 0x40int } else { 0int }) + (if b5 { 0x20int } else { 0int })
        + (if b4 { 0x10int } else { 0int }) + (if b3 { 0x08int } else { 0int }) + (if b2 { 0x04int } else { 0int })
        + (if b1 { 0x02int } else { 0int }) + (if b0 { 0x01int } else { 0int })) as u8
}

/// A byte is made of its eight bits.
pub proof fn lemma_byte_of_bits(v: u8)
    by (bit_vector)
    ensures
        byte_of_bits(
            v & 0x80 != 0,
            v & 0x40 != 0,
            v & 0x20 != 0,
            v & 0x10 != 0,
            v & 0x08 != 0,
            v & 0x04 != 0,
            v & 0x02 != 0,
            v & 0x01 != 0,
        ) == v,
        (v & 0x80 != 0) == (v >= 128),
        (v & 0x40 != 0) == ((v / 64) % 2 == 1),
        (v & 0x20 != 0) == ((v / 32) % 2 == 1),
        (v & 0x10 != 0) == ((v / 16) % 2 == 1),
        (v & 0x08 != 0) == ((v / 8) % 2 == 1),
        (v & 0x04 != 0) == ((v / 4) % 2 == 1),
        (v & 0x02 != 0) == ((v / 2) % 2 == 1),
        (v & 0x01 != 0) == (v % 2 == 1),
{
}

} // verus!
