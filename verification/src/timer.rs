//! The divider and the timer.
//!
//! The divider `DIV` is a sixteen-bit counter that goes up by one every
//! clock cycle. The timer counter `TIMA` goes up by one when the bit of `DIV`
//! that `TAC` selects falls from one to zero, if `TAC` enables it. When `TIMA`
//! overflows it is loaded from `TMA` and the timer interrupt is raised.

use vstd::prelude::*;
use crate::bits::{byte_of_bits, has_bit, lemma_byte_of_bits, lemma_word_bits};
use crate::bus::HardwareRegister;
use crate::interrupts::{InterruptFlag, InterruptRequest};

verus! {

/// The timer control register: bit 2 enables the timer, bits 1 and 0 select
/// its rate.
#[derive(Copy, Clone, Debug, PartialEq, Eq, Structural)]
pub struct TacRegister {
    pub enable: bool,
    pub clock1: bool,
    pub clock0: bool,
}

impl TacRegister {
    pub const ENABLE: u8 = 0b100;
    pub const CLOCK1: u8 = 0b010;
    pub const CLOCK0: u8 = 0b001;

    pub open spec fn spec_bits(self) -> u8 {
        byte_of_bits(false, false, false, false, false, self.enable, self.clock1, self.clock0)
    }

    pub open spec fn spec_from_bits(bits: u8) -> TacRegister {
        TacRegister { enable: has_bit(bits as int, 4), clock1: has_bit(bits as int, 2), clock0: bits % 2 == 1 }
    }

    /// The weight of the bit of `DIV` whose fall counts: bit 9 for rate 00,
    /// bit 3 for 01, bit 5 for 10, bit 7 for 11.
    pub open spec fn selected_weight(self) -> int {
        if !self.clock1 && !self.clock0 {
            512
        } else if !self.clock1 && self.clock0 {
            8
        } else if self.clock1 && !self.clock0 {
            32
        } else {
            128
        }
    }

    /// Reads the register out of a byte; the upper five bits are dropped.
    pub fn from_bits_truncate(bits: u8) -> (tac: TacRegister)
        ensures
            tac == TacRegister::spec_from_bits(bits),
            tac.spec_bits() == bits % 8,
    {
        proof {
            lemma_byte_of_bits(bits);
        }
        TacRegister { enable: bits & 0x04 != 0, clock1: bits & 0x02 != 0, clock0: bits & 0x01 != 0 }
    }

    #[verifier::when_used_as_spec(spec_bits)]
    pub fn bits(self) -> (b: u8)
        ensures
            b == self.spec_bits(),
            b < 8,
    {
        let e: u8 = if self.enable { 0x04 } else { 0 };
        let c1: u8 = if self.clock1 { 0x02 } else { 0 };
        let c0: u8 = if self.clock0 { 0x01 } else { 0 };
        e + c1 + c0
    }
}

pub struct Timer {
    /// The internal counter, of which `DIV` shows the high byte.
    pub div: u16,
    pub tima: u8,
    pub tma: u8,
    pub tac: TacRegister,
}

/// The four registers of the timer, at `0xFF04` to `0xFF07`.
pub open spec fn is_timer_register(address: u16) -> bool {
    0xFF04 <= address <= 0xFF07
}

impl Timer {
    /// The timer when the boot program has run.
    pub open spec fn spec_new() -> Timer {
        Timer {
            div: 0xAC00,
            tima: 0,
            tma: 0,
            tac: TacRegister { enable: false, clock1: false, clock0: false },
        }
    }

    /// What a read of a timer register gives: of `DIV`, the high byte of the
    /// counter.
    pub open spec fn spec_read(self, address: u16) -> u8
        recommends
            is_timer_register(address),
    {
        if address == 0xFF04 {
            (self.div / 256) as u8
        } else if address == 0xFF05 {
            self.tima
        } else if address == 0xFF06 {
            self.tma
        } else {
            self.tac.spec_bits()
        }
    }

    /// The timer after a write to one of its registers. Whatever is written
    /// to `DIV`, the whole counter becomes zero.
    pub open spec fn spec_write(self, address: u16, value: u8) -> Timer
        recommends
            is_timer_register(address),
    {
        if address == 0xFF04 {
            Timer { div: 0, ..self }
        } else if address == 0xFF05 {
            Timer { tima: value, ..self }
        } else if address == 0xFF06 {
            Timer { tma: value, ..self }
        } else {
            Timer { tac: TacRegister::spec_from_bits(value), ..self }
        }
    }

    /// Whether the clock cycle that takes the counter from `div` on makes
    /// `TIMA` count: the timer is enabled and the selected bit falls.
    pub open spec fn counts(self) -> bool {
        let next = (self.div + 1) % 65536;
        self.tac.enable && has_bit(self.div as int, self.tac.selected_weight()) && !has_bit(
            next,
            self.tac.selected_weight(),
        )
    }

    /// Whether the next clock cycle raises the timer interrupt: `TIMA` counts
    /// and wraps from `0xFF` to zero.
    pub open spec fn overflows(self) -> bool {
        self.counts() && self.tima == 0xFF
    }

    /// The timer after one clock cycle.
    pub open spec fn spec_tick(self) -> Timer {
        let div = ((self.div + 1) % 65536) as u16;
        if !self.counts() {
            Timer { div, ..self }
        } else if self.tima == 0xFF {
            Timer { div, tima: self.tma, ..self }
        } else {
            Timer { div, tima: (self.tima + 1) as u8, ..self }
        }
    }

    /// The timer after `n` clock cycles.
    pub open spec fn spec_ticks(self, n: nat) -> Timer
        decreases n,
    {
        if n == 0 {
            self
        } else {
            self.spec_ticks((n - 1) as nat).spec_tick()
        }
    }

    pub fn new() -> (timer: Timer)
        ensures
            timer == Timer::spec_new(),
    {
        Timer {
            div: 0xAC00,  // In docs, 0xABCC specified for DMG
            tima: 0,
            tma: 0,
            tac: TacRegister::from_bits_truncate(0),
        }
    }

    pub fn read(&mut self, address: u16) -> (value: u8)
        requires
            is_timer_register(address),
        ensures
            value == old(self).spec_read(address),
            *final(self) == *old(self),
    {
        proof {
            lemma_word_bits();
        }
        match HardwareRegister::from_u16(address) {
            Some(HardwareRegister::DIV) => (self.div >> 8) as u8,
            Some(HardwareRegister::TIMA) => self.tima,
            Some(HardwareRegister::TMA) => self.tma,
            _ => self.tac.bits(),
        }
    }

    pub fn write(&mut self, address: u16, value: u8)
        requires
            is_timer_register(address),
        ensures
            *final(self) == old(self).spec_write(address, value),
    {
        match HardwareRegister::from_u16(address) {
            Some(HardwareRegister::DIV) => self.div = 0,
            Some(HardwareRegister::TIMA) => self.tima = value,
            Some(HardwareRegister::TMA) => self.tma = value,
            _ => self.tac = TacRegister::from_bits_truncate(value),
        }
    }

    /// Lets one clock cycle pass, and raises the timer interrupt on `ctx` if
    /// `TIMA` overflows.
    pub fn tick<I: InterruptRequest>(&mut self, ctx: &mut I)
        ensures
            *final(self) == old(self).spec_tick(),
            *final(ctx) == (if old(self).overflows() {
                old(ctx).raised(InterruptFlag::spec_timer())
            } else {
                *old(ctx)
            }),
    {
        proof {
            lemma_word_bits();
        }
        let prev_div = self.div;
        self.div = self.div.wrapping_add(1);
        // The DIV register acts as the source clock,
        // specific bits of DIV are used to trigger TIMA updates:
        //     DIV[9] for 4096 Hz.
        //     DIV[3] for 262144 Hz.
        //     DIV[5] for 65536 Hz.
        //     DIV[7] for 16384 Hz.
        if self.tac.enable {
            let timer_update = if !self.tac.clock1 && !self.tac.clock0 {
                (prev_div & 0x0200) != 0 && (self.div & 0x0200) == 0
            } else if !self.tac.clock1 && self.tac.clock0 {
                (prev_div & 0x0008) != 0 && (self.div & 0x0008) == 0
            } else if self.tac.clock1 && !self.tac.clock0 {
                (prev_div & 0x0020) != 0 && (self.div & 0x0020) == 0
            } else {
                (prev_div & 0x0080) != 0 && (self.div & 0x0080) == 0
            };

            if timer_update {
                if self.tima == 0xFF {
                    self.tima = self.tma;
                    ctx.request_interrupt(InterruptFlag::timer());
                } else {
                    self.tima = self.tima + 1;
                }
            }
        }
    }
}

impl Default for Timer {
    fn default() -> (timer: Timer)
        ensures
            timer == Timer::spec_new(),
    {
        Timer::new()
    }
}

/// A memory cycle is four clock cycles: it takes the divider on by four,
/// modulo 65536.
pub proof fn lemma_memory_cycle_advances_divider(timer: Timer)
    ensures
        timer.spec_ticks(4).div as int == (timer.div + 4) % 65536,
        timer.spec_ticks(4) == timer.spec_tick().spec_tick().spec_tick().spec_tick(),
{
    reveal_with_fuel(Timer::spec_ticks, 5);
}

} // verus!
