//! The interrupt line: the enable register `IE`, the request register `IF`,
//! and the rule by which one of several pending requests is served first.

use vstd::prelude::*;

verus! {

/// A set of the five interrupt sources. In the registers `IE` and `IF` bit 0
/// stands for the vertical blank, bit 1 for the display status, bit 2 for the
/// timer, bit 3 for the serial port and bit 4 for the joypad. The lower the
/// bit, the higher the priority.
#[derive(Copy, Clone, Debug, PartialEq, Eq, Structural)]
pub struct InterruptFlag {
    pub vblank: bool,
    pub lcd: bool,
    pub timer: bool,
    pub serial: bool,
    pub joypad: bool,
}

/// The byte that holds five flags in its low five bits.
pub open spec fn flag5_byte(b0: bool, b1: bool, b2: bool, b3: bool, b4: bool) -> u8 {
    ((if b0 { 1int } else { 0int }) + (if b1 { 2int } else { 0int }) + (if b2 { 4int } else { 0int }) + (if b3 {
        8int
    } else {
        0int
    }) + (if b4 { 16int } else { 0int })) as u8
}

/// The lowest set bit of a byte, as a byte with that bit alone; zero for zero.
pub open spec fn lowest_set_bit(f: u8) -> u8 {
    if f % 2 == 1 {
        1
    } else if f % 4 == 2 {
        2
    } else if f % 8 == 4 {
        4
    } else if f % 16 == 8 {
        8
    } else if f % 32 == 16 {
        16
    } else if f % 64 == 32 {
        32
    } else if f % 128 == 64 {
        64
    } else if f == 128 {
        128
    } else {
        0
    }
}

proof fn lemma_flag5(v: u8)
    by (bit_vector)
    ensures
        (v & 0x01 != 0) == (v % 2 == 1),
        (v & 0x02 != 0) == ((v / 2) % 2 == 1),
        (v & 0x04 != 0) == ((v / 4) % 2 == 1),
        (v & 0x08 != 0) == ((v / 8) % 2 == 1),
        (v & 0x10 != 0) == ((v / 16) % 2 == 1),
        flag5_byte(v & 0x01 != 0, v & 0x02 != 0, v & 0x04 != 0, v & 0x08 != 0, v & 0x10 != 0) == v % 32,
        flag5_byte(v & 0x01 != 0, v & 0x02 != 0, v & 0x04 != 0, v & 0x08 != 0, v & 0x10 != 0) == v & 0x1F,
{
}

proof fn lemma_isolate(f: u8, inverted: u8, negated: u8)
    by (bit_vector)
    requires
        inverted == !f,
        negated == (if inverted == 255 { 0u8 } else { (inverted + 1) as u8 }),
    ensures
        f & negated == lowest_set_bit(f),
        lowest_set_bit(f) & f == lowest_set_bit(f),
        f != 0 ==> lowest_set_bit(f) != 0,
        lowest_set_bit(f) & ((lowest_set_bit(f) - 1) as u8) == 0,
        f & ((lowest_set_bit(f) - 1) as u8) == 0,
{
}

/// Isolates the lowest set bit of `f`: the result has that bit alone, and is
/// zero when `f` is zero.
pub fn isolate_rightmost_one(f: u8) -> (r: u8)
    ensures
        r == lowest_set_bit(f),
        f == 0 <==> r == 0,
        // the result is a bit of `f`
        r & f == r,
        // it has at most one bit set
        r & ((r - 1) as u8) == 0,
        // no bit of `f` lies below it
        f & ((r - 1) as u8) == 0,
{
    // Two's complement negation, -f
    let inverted: u8 = !f;
    let neg_f: u8 = inverted.wrapping_add(1);
    proof {
        lemma_isolate(f, inverted, neg_f);
    }
    f & neg_f
}

impl InterruptFlag {
    pub const VBLANK: u8 = 0b1;
    pub const LCD: u8 = 0b10;
    pub const TIMER: u8 = 0b100;
    pub const SERIAL: u8 = 0b1000;
    pub const JOYPAD: u8 = 0b1_0000;

    /// The set as the low five bits of a byte.
    pub open spec fn spec_bits(self) -> u8 {
        flag5_byte(self.vblank, self.lcd, self.timer, self.serial, self.joypad)
    }

    /// The set that the low five bits of `bits` hold.
    pub open spec fn spec_from_bits(bits: u8) -> InterruptFlag {
        InterruptFlag {
            vblank: bits % 2 == 1,
            lcd: (bits / 2) % 2 == 1,
            timer: (bits / 4) % 2 == 1,
            serial: (bits / 8) % 2 == 1,
            joypad: (bits / 16) % 2 == 1,
        }
    }

    /// The set without a member.
    pub open spec fn spec_empty() -> InterruptFlag {
        InterruptFlag { vblank: false, lcd: false, timer: false, serial: false, joypad: false }
    }

    pub open spec fn spec_is_empty(&self) -> bool {
        !self.vblank && !self.lcd && !self.timer && !self.serial && !self.joypad
    }

    /// The members of either set.
    pub open spec fn union(self, other: InterruptFlag) -> InterruptFlag {
        InterruptFlag {
            vblank: self.vblank || other.vblank,
            lcd: self.lcd || other.lcd,
            timer: self.timer || other.timer,
            serial: self.serial || other.serial,
            joypad: self.joypad || other.joypad,
        }
    }

    /// The members of both sets.
    pub open spec fn intersection(self, other: InterruptFlag) -> InterruptFlag {
        InterruptFlag {
            vblank: self.vblank && other.vblank,
            lcd: self.lcd && other.lcd,
            timer: self.timer && other.timer,
            serial: self.serial && other.serial,
            joypad: self.joypad && other.joypad,
        }
    }

    /// The members of this set that are not in `other`.
    pub open spec fn difference(self, other: InterruptFlag) -> InterruptFlag {
        InterruptFlag {
            vblank: self.vblank && !other.vblank,
            lcd: self.lcd && !other.lcd,
            timer: self.timer && !other.timer,
            serial: self.serial && !other.serial,
            joypad: self.joypad && !other.joypad,
        }
    }

    /// The member of highest priority alone; the empty set for the empty set.
    pub open spec fn spec_highest_priority(&self) -> InterruptFlag {
        let none = InterruptFlag::spec_empty();
        if self.vblank {
            InterruptFlag { vblank: true, ..none }
        } else if self.lcd {
            InterruptFlag { lcd: true, ..none }
        } else if self.timer {
            InterruptFlag { timer: true, ..none }
        } else if self.serial {
            InterruptFlag { serial: true, ..none }
        } else if self.joypad {
            InterruptFlag { joypad: true, ..none }
        } else {
            none
        }
    }

    /// The vertical blank alone.
    pub open spec fn spec_vblank() -> InterruptFlag {
        InterruptFlag { vblank: true, ..InterruptFlag::spec_empty() }
    }

    /// The display status alone.
    pub open spec fn spec_lcd() -> InterruptFlag {
        InterruptFlag { lcd: true, ..InterruptFlag::spec_empty() }
    }

    /// The timer alone.
    pub open spec fn spec_timer() -> InterruptFlag {
        InterruptFlag { timer: true, ..InterruptFlag::spec_empty() }
    }

    #[verifier::when_used_as_spec(spec_vblank)]
    pub fn vblank() -> (f: InterruptFlag)
        ensures
            f == InterruptFlag::spec_vblank(),
    {
        InterruptFlag { vblank: true, lcd: false, timer: false, serial: false, joypad: false }
    }

    #[verifier::when_used_as_spec(spec_lcd)]
    pub fn lcd() -> (f: InterruptFlag)
        ensures
            f == InterruptFlag::spec_lcd(),
    {
        InterruptFlag { vblank: false, lcd: true, timer: false, serial: false, joypad: false }
    }

    #[verifier::when_used_as_spec(spec_timer)]
    pub fn timer() -> (f: InterruptFlag)
        ensures
            f == InterruptFlag::spec_timer(),
    {
        InterruptFlag { vblank: false, lcd: false, timer: true, serial: false, joypad: false }
    }

    pub fn empty() -> (f: InterruptFlag)
        ensures
            f == InterruptFlag::spec_empty(),
    {
        InterruptFlag { vblank: false, lcd: false, timer: false, serial: false, joypad: false }
    }

    /// Reads a set out of a byte; the upper three bits are dropped.
    pub fn from_bits_truncate(bits: u8) -> (f: InterruptFlag)
        ensures
            f == InterruptFlag::spec_from_bits(bits),
            f.spec_bits() == bits % 32,
            f.spec_bits() == bits & 0x1F,
    {
        proof {
            lemma_flag5(bits);
        }
        InterruptFlag {
            vblank: bits & 0x01 != 0,
            lcd: bits & 0x02 != 0,
            timer: bits & 0x04 != 0,
            serial: bits & 0x08 != 0,
            joypad: bits & 0x10 != 0,
        }
    }

    #[verifier::when_used_as_spec(spec_bits)]
    pub fn bits(self) -> (b: u8)
        ensures
            b == self.spec_bits(),
            b < 32,
    {
        let b0: u8 = if self.vblank { 0x01 } else { 0 };
        let b1: u8 = if self.lcd { 0x02 } else { 0 };
        let b2: u8 = if self.timer { 0x04 } else { 0 };
        let b3: u8 = if self.serial { 0x08 } else { 0 };
        let b4: u8 = if self.joypad { 0x10 } else { 0 };
        b0 + b1 + b2 + b3 + b4
    }

    #[verifier::when_used_as_spec(spec_is_empty)]
    pub fn is_empty(&self) -> (e: bool)
        ensures
            e == self.spec_is_empty(),
    {
        !self.vblank && !self.lcd && !self.timer && !self.serial && !self.joypad
    }

    /// The request that is served first: the one of the lowest bit.
    #[verifier::when_used_as_spec(spec_highest_priority)]
    pub fn highest_priority(&self) -> (f: InterruptFlag)
        ensures
            f == self.spec_highest_priority(),
            f.spec_bits() == lowest_set_bit(self.spec_bits()),
    {
        let f = InterruptFlag::from_bits_truncate(isolate_rightmost_one(self.bits()));
        assert(f == self.spec_highest_priority());
        f
    }
}

/// A device that can be asked to raise an interrupt.
pub trait InterruptRequest: Sized {
    /// The device after the sources in `f` have been raised.
    spec fn raised(self, f: InterruptFlag) -> Self;

    fn request_interrupt(&mut self, f: InterruptFlag)
        ensures
            *final(self) == old(self).raised(f),
    ;
}

/// The two interrupt registers.
#[derive(Copy, Clone, Debug, PartialEq, Eq, Structural)]
pub struct InterruptLine {
    /// The register `IE`: the sources that may interrupt.
    pub interrupt_enable: InterruptFlag,
    /// The register `IF`: the sources that have asked to.
    pub interrupt_flag: InterruptFlag,
}

impl InterruptLine {
    pub fn new() -> (line: InterruptLine)
        ensures
            line.interrupt_enable == InterruptFlag::spec_empty(),
            line.interrupt_flag == InterruptFlag::spec_empty(),
    {
        InterruptLine { interrupt_enable: InterruptFlag::empty(), interrupt_flag: InterruptFlag::empty() }
    }

    /// The requests that are both raised and enabled.
    pub open spec fn pending(self) -> InterruptFlag {
        self.interrupt_enable.intersection(self.interrupt_flag)
    }
}

impl Default for InterruptLine {
    fn default() -> (line: InterruptLine)
        ensures
            line.interrupt_enable == InterruptFlag::spec_empty(),
            line.interrupt_flag == InterruptFlag::spec_empty(),
    {
        InterruptLine::new()
    }
}

impl InterruptRequest for InterruptLine {
    open spec fn raised(self, f: InterruptFlag) -> InterruptLine {
        InterruptLine { interrupt_flag: self.interrupt_flag.union(f), ..self }
    }

    fn request_interrupt(&mut self, f: InterruptFlag) {
        self.interrupt_flag = InterruptFlag {
            vblank: self.interrupt_flag.vblank || f.vblank,
            lcd: self.interrupt_flag.lcd || f.lcd,
            timer: self.interrupt_flag.timer || f.timer,
            serial: self.interrupt_flag.serial || f.serial,
            joypad: self.interrupt_flag.joypad || f.joypad,
        };
    }
}

/// The address of the handler of the request of highest priority in `f`.
pub open spec fn spec_handler_address(f: InterruptFlag) -> u16 {
    if f.vblank {
        0x40
    } else if f.lcd {
        0x48
    } else if f.timer {
        0x50
    } else if f.serial {
        0x58
    } else {
        0x60
    }
}

/// The address at which the handler of the request of highest priority in
/// `f` starts. The empty set has no handler.
pub fn get_hadler_address(f: InterruptFlag) -> (address: u16)
    requires
        !f.spec_is_empty(),
    ensures
        address == spec_handler_address(f),
        address == 0x40 + 8 * bit_number(lowest_set_bit(f.spec_bits())),
{
    let high_f = f.highest_priority();

    if high_f.vblank {
        0x40
    } else if high_f.lcd {
        0x48
    } else if high_f.timer {
        0x50
    } else if high_f.serial {
        0x58
    } else {
        0x60
    }
}

/// The number of the bit that a byte with one of its low five bits set holds.
pub open spec fn bit_number(one_hot: u8) -> int {
    if one_hot == 1 {
        0
    } else if one_hot == 2 {
        1
    } else if one_hot == 4 {
        2
    } else if one_hot == 8 {
        3
    } else {
        4
    }
}

/// Whether a byte has exactly one bit set.
pub open spec fn is_single_bit(b: u8) -> bool {
    b == 1 || b == 2 || b == 4 || b == 8 || b == 16 || b == 32 || b == 64 || b == 128
}

/// The helper that picks the request to serve gives zero for zero, and else
/// a byte with exactly one bit set: that bit is set in the argument, and no
/// bit below it is.
pub proof fn lemma_lowest_set_bit(f: u8)
    ensures
        f == 0 <==> lowest_set_bit(f) == 0,
        f != 0 ==> is_single_bit(lowest_set_bit(f)) && f as int % (2 * lowest_set_bit(f)) == lowest_set_bit(f),
{
    let inverted: u8 = !f;
    let negated: u8 = if inverted == 255 {
        0u8
    } else {
        (inverted + 1) as u8
    };
    lemma_isolate(f, inverted, negated);
    let r = lowest_set_bit(f);
    if f % 2 == 1 {
        assert(r == 1 && f as int % 2int == 1);
    } else if f % 4 == 2 {
        assert(r == 2 && f as int % 4int == 2);
    } else if f % 8 == 4 {
        assert(r == 4 && f as int % 8int == 4);
    } else if f % 16 == 8 {
        assert(r == 8 && f as int % 16int == 8);
    } else if f % 32 == 16 {
        assert(r == 16 && f as int % 32int == 16);
    } else if f % 64 == 32 {
        assert(r == 32 && f as int % 64int == 32);
    } else if f % 128 == 64 {
        assert(r == 64 && f as int % 128int == 64);
    } else if f == 128 {
        assert(r == 128 && f as int % 256int == 128);
    }
}

} // verus!
