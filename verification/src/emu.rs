//! The machine: the bus, the interrupt line, the OAM-DMA engine, the
//! pixel-processing unit and the timer, behind the interface that the
//! interpreter drives.
//!
//! One memory cycle is four clock cycles. In each of them the clock counts
//! one, the timer makes a step and the pixel-processing unit puts out a
//! dot; after the four the OAM-DMA engine makes a step. A read takes its
//! value first and lets the cycle pass then; a write stores first and lets
//! the cycle pass then.

use vstd::prelude::*;
use crate::bus::{BusView, HardwareRegister, MemoryBus};
use crate::cpu::{budget, CpuContext, STEP_BUDGET};
use crate::dma::{lemma_oam_written, DMA};
use crate::interrupts::{InterruptFlag, InterruptLine, InterruptRequest};
use crate::ppu::{lemma_tick_keeps_memory_of_unit, raise_requests, PpuView, PPU};
use crate::timer::{is_timer_register, Timer};

verus! {

/// The state of the machine.
///
/// The machine is composed of the following components:
/// - the address bus, with the cartridge
/// - the interrupt line
/// - the OAM-DMA engine
/// - the PPU (pixel-processing unit)
/// - the timer
pub struct Emulator {
    /// The clock cycles that have passed.
    pub ticks: u64,
    pub bus: MemoryBus,
    pub interrupts: InterruptLine,
    pub dma: DMA,
    pub ppu: PPU,
    pub timer: Timer,
    /// The bytes that the program has sent over the serial port.
    pub debug_msg: Vec<u8>,
}

pub struct EmulatorView {
    pub ticks: u64,
    pub bus: BusView,
    pub interrupts: InterruptLine,
    pub dma: DMA,
    pub ppu: PpuView,
    pub timer: Timer,
    pub debug_msg: Seq<u8>,
}

impl View for Emulator {
    type V = EmulatorView;

    open spec fn view(&self) -> EmulatorView {
        EmulatorView {
            ticks: self.ticks,
            bus: self.bus@,
            interrupts: self.interrupts,
            dma: self.dma,
            ppu: self.ppu@,
            timer: self.timer,
            debug_msg: self.debug_msg@,
        }
    }
}

/// Video RAM.
pub open spec fn is_vram(address: u16) -> bool {
    0x8000 <= address <= 0x9FFF
}

/// Object attribute memory.
pub open spec fn is_oam(address: u16) -> bool {
    0xFE00 <= address <= 0xFE9F
}

/// Work RAM.
pub open spec fn is_wram(address: u16) -> bool {
    0xC000 <= address <= 0xDFFF
}

/// High RAM.
pub open spec fn is_hram(address: u16) -> bool {
    0xFF80 <= address <= 0xFFFE
}

/// The I/O page and the interrupt enable register.
pub open spec fn is_io(address: u16) -> bool {
    0xFF00 <= address <= 0xFF7F || address == 0xFFFF
}

impl EmulatorView {
    /// The machine at power-on, without a cartridge: the clock at zero, the
    /// store of the bus cleared, no interrupt enabled or raised, the OAM-DMA
    /// engine idle, the pixel-processing unit and the timer in their
    /// power-on states, and nothing sent over the serial port.
    pub open spec fn spec_new() -> EmulatorView {
        EmulatorView {
            ticks: 0,
            bus: BusView { bytes: Seq::new(0x10000, |i: int| 0u8), rom: None },
            interrupts: InterruptLine {
                interrupt_enable: InterruptFlag::spec_empty(),
                interrupt_flag: InterruptFlag::spec_empty(),
            },
            dma: DMA::spec_new(),
            ppu: PpuView::spec_new(),
            timer: Timer::spec_new(),
            debug_msg: Seq::empty(),
        }
    }

    /// What the components ask of each other.
    pub open spec fn wf(self) -> bool {
        self.ppu.wf() && self.dma.wf() && self.bus.bytes.len() == 0x10000
    }

    /// What a read of `address` gives. Video RAM and object attribute
    /// memory are read from the pixel-processing unit, the registers of the
    /// timer, of the interrupt line and of the display from their devices,
    /// and everything else from the bus. During an OAM transfer object
    /// attribute memory reads as `0xFF`. A register that no device owns
    /// reads as what was last written to it.
    pub open spec fn peek(self, address: u16) -> u8 {
        if is_vram(address) {
            self.ppu.vram_byte(address as int)
        } else if is_oam(address) {
            if self.dma.active {
                0xFF
            } else {
                self.ppu.oam_byte(address - 0xFE00)
            }
        } else if is_io(address) {
            match HardwareRegister::spec_from_u16(address) {
                Some(register) => if is_timer_register(address) {
                    self.timer.spec_read(address)
                } else if register == HardwareRegister::IF {
                    self.interrupts.interrupt_flag.spec_bits()
                } else if register == HardwareRegister::IE {
                    self.interrupts.interrupt_enable.spec_bits()
                } else if register.spec_is_lcd() && register != HardwareRegister::DMA {
                    self.ppu.lcd.spec_read(register)
                } else {
                    self.bus.read(address)
                },
                None => self.bus.read(address),
            }
        } else {
            self.bus.read(address)
        }
    }

    /// The machine after a write of `value` to `address`, before the memory
    /// cycle of the write has passed. The bus stores every write. On top of
    /// that, video RAM and the registers of the devices take theirs; object
    /// attribute memory takes its own unless an OAM transfer is active; a
    /// write to `DMA` starts a transfer; and a write of `0x81` to `SC` sends
    /// the byte that `SB` holds over the serial port.
    pub open spec fn store(self, address: u16, value: u8) -> EmulatorView {
        let s = EmulatorView { bus: self.bus.write(address, value), ..self };
        if is_vram(address) {
            EmulatorView { ppu: s.ppu.vram_written(address as int, value), ..s }
        } else if is_oam(address) {
            if s.dma.active {
                s
            } else {
                EmulatorView { ppu: s.ppu.oam_written(address - 0xFE00, value), ..s }
            }
        } else if is_io(address) {
            s.store_io(address, value)
        } else {
            s
        }
    }

    /// What a write to the I/O page or to `IE` does beyond the bus.
    pub open spec fn store_io(self, address: u16, value: u8) -> EmulatorView {
        let s = self;
        {
            match HardwareRegister::spec_from_u16(address) {
                Some(register) => if register == HardwareRegister::SC {
                    if value == 0x81 {
                        EmulatorView { debug_msg: s.debug_msg.push(s.bus.bytes[0xFF01]), ..s }
                    } else {
                        s
                    }
                } else if is_timer_register(address) {
                    EmulatorView { timer: s.timer.spec_write(address, value), ..s }
                } else if register == HardwareRegister::IF {
                    EmulatorView {
                        interrupts: InterruptLine { interrupt_flag: InterruptFlag::spec_from_bits(value), ..s.interrupts },
                        ..s
                    }
                } else if register == HardwareRegister::IE {
                    EmulatorView {
                        interrupts: InterruptLine {
                            interrupt_enable: InterruptFlag::spec_from_bits(value),
                            ..s.interrupts
                        },
                        ..s
                    }
                } else if register == HardwareRegister::DMA {
                    EmulatorView { dma: s.dma.spec_start(value), ..s }
                } else if register.spec_is_lcd() {
                    EmulatorView { ppu: s.ppu.lcd_written(register, value), ..s }
                } else {
                    s
                },
                None => s,
            }
        }
    }

    /// The machine after one clock cycle: the clock counts, the timer makes
    /// a step and raises its interrupt if it overflows, and the
    /// pixel-processing unit puts out a dot and raises what the dot brings.
    pub open spec fn dot(self) -> EmulatorView {
        let line = if self.timer.overflows() {
            self.interrupts.raised(InterruptFlag::spec_timer())
        } else {
            self.interrupts
        };
        let (ppu, requests) = self.ppu.spec_tick();
        EmulatorView {
            ticks: (self.ticks + 1) as u64,
            timer: self.timer.spec_tick(),
            interrupts: raise_requests(line, requests),
            ppu,
            ..self
        }
    }

    /// The machine after one memory cycle: four clock cycles, then a step
    /// of the OAM-DMA engine.
    pub open spec fn tick(self) -> EmulatorView {
        let s = self.dot().dot().dot().dot();
        let (dma, ppu) = s.dma.spec_tick_cycle(s.bus, s.ppu);
        EmulatorView { dma, ppu, ..s }
    }

    /// The machine after `n` memory cycles in which nothing is written.
    pub open spec fn ticks(self, n: nat) -> EmulatorView
        decreases n,
    {
        if n == 0 {
            self
        } else {
            self.ticks((n - 1) as nat).tick()
        }
    }

    /// The machine after the request of highest priority in `f` has been
    /// cleared in `IF`. The bus keeps a copy of `IF`.
    pub open spec fn ack(self, f: InterruptFlag) -> EmulatorView {
        let flag = self.interrupts.interrupt_flag.difference(f.spec_highest_priority());
        EmulatorView {
            interrupts: InterruptLine { interrupt_flag: flag, ..self.interrupts },
            bus: self.bus.write(0xFF0F, flag.spec_bits()),
            ..self
        }
    }
}

impl Default for Emulator {
    fn default() -> (emulator: Emulator)
        ensures
            emulator@ == EmulatorView::spec_new(),
            emulator@.wf(),
    {
        Emulator::new()
    }
}

impl CpuContext for Emulator {
    open spec fn wf(&self) -> bool {
        self@.wf()
    }

    open spec fn spec_ticks(v: EmulatorView) -> nat {
        v.ticks as nat
    }

    open spec fn spec_peek(v: EmulatorView, address: u16) -> u8 {
        v.peek(address)
    }

    open spec fn spec_tick(v: EmulatorView) -> EmulatorView {
        v.tick()
    }

    open spec fn spec_store(v: EmulatorView, address: u16, value: u8) -> EmulatorView {
        v.store(address, value)
    }

    open spec fn spec_pending(v: EmulatorView) -> InterruptFlag {
        v.interrupts.pending()
    }

    open spec fn spec_ack(v: EmulatorView, f: InterruptFlag) -> EmulatorView {
        v.ack(f)
    }

    fn tick_cycle(&mut self) {
        // 1 Memory cycle is 4 CPU cycle
        self.dot();
        self.dot();
        self.dot();
        self.dot();
        self.dma.tick_cycle(&self.bus, &mut self.ppu);
    }

    fn read_cycle(&mut self, address: u16) -> (value: u8) {
        let value = self.peek(address);
        self.tick_cycle();
        value
    }

    fn write_cycle(&mut self, address: u16, value: u8) {
        self.store(address, value);
        self.tick_cycle();
    }

    fn get_interrupt(&mut self) -> (pending: Option<InterruptFlag>) {
        let ier = self.interrupts.interrupt_enable;
        let ifr = self.interrupts.interrupt_flag;
        let both = InterruptFlag {
            vblank: ier.vblank && ifr.vblank,
            lcd: ier.lcd && ifr.lcd,
            timer: ier.timer && ifr.timer,
            serial: ier.serial && ifr.serial,
            joypad: ier.joypad && ifr.joypad,
        };

        if !both.is_empty() {
            return Some(both);
        }
        None
    }

    /// Clear the interrupt flag
    fn ack_interrupt(&mut self, f: &InterruptFlag) {
        let ifr = self.interrupts.interrupt_flag;
        let served = f.highest_priority();
        let new_ifr = InterruptFlag {
            vblank: ifr.vblank && !served.vblank,
            lcd: ifr.lcd && !served.lcd,
            timer: ifr.timer && !served.timer,
            serial: ifr.serial && !served.serial,
            joypad: ifr.joypad && !served.joypad,
        };
        self.interrupts.interrupt_flag = new_ifr;
        self.bus.write_register(HardwareRegister::IF, new_ifr.bits());
    }

    fn peek(&mut self, address: u16) -> (value: u8) {
        match address {
            0x8000..=0x9FFF => self.ppu.vram_read(address),
            0xFE00..=0xFE9F => {
                if self.dma.is_active() {
                    return 0xFF;
                }
                self.ppu.oam_read(address)
            },
            0xFF00..=0xFF7F | 0xFFFF => {
                let register = HardwareRegister::from_u16(address);
                match register {
                    Some(HardwareRegister::DIV)
                    | Some(HardwareRegister::TIMA)
                    | Some(HardwareRegister::TMA)
                    | Some(HardwareRegister::TAC) => self.timer.read(address),
                    Some(HardwareRegister::IF) => self.interrupts.interrupt_flag.bits(),
                    Some(HardwareRegister::LCDC)
                    | Some(HardwareRegister::STAT)
                    | Some(HardwareRegister::SCY)
                    | Some(HardwareRegister::SCX)
                    | Some(HardwareRegister::LY)
                    | Some(HardwareRegister::LYC)
                    | Some(HardwareRegister::BGP)
                    | Some(HardwareRegister::OBP0)
                    | Some(HardwareRegister::OBP1)
                    | Some(HardwareRegister::WY)
                    | Some(HardwareRegister::WX) => self.ppu.lcd_read(register.unwrap()),
                    Some(HardwareRegister::IE) => self.interrupts.interrupt_enable.bits(),
                    _ => self.bus.read(address),
                }
            },
            _ => self.bus.read(address),
        }
    }

    fn ticks(&self) -> (t: u64) {
        self.ticks
    }
}

impl Emulator {
    /// A machine at power-on, without a cartridge: see
    /// [`EmulatorView::spec_new`].
    pub fn new() -> (emulator: Emulator)
        ensures
            emulator@ == EmulatorView::spec_new(),
            emulator@.wf(),
    {
        let emulator = Emulator {
            ticks: 0,
            bus: MemoryBus::new(),
            interrupts: InterruptLine::new(),
            dma: DMA::new(),
            ppu: PPU::new(),
            timer: Timer::new(),
            debug_msg: Vec::new(),
        };
        assert(emulator@.bus.bytes =~= EmulatorView::spec_new().bus.bytes);
        assert(emulator@.debug_msg =~= Seq::<u8>::empty());
        emulator
    }

    /// Whether the invariant of the machine holds: see [`EmulatorView::wf`].
    pub fn is_well_formed(&self) -> (ok: bool)
        ensures
            ok == self@.wf(),
    {
        self.ppu.is_well_formed() && self.dma.is_well_formed()
    }

    /// Whether the clock can count the cycles of one more step of the
    /// interpreter.
    pub fn has_budget(&self) -> (ok: bool)
        ensures
            ok == budget::<Emulator>(self@, STEP_BUDGET as nat),
    {
        self.ticks <= u64::MAX - 4 * STEP_BUDGET
    }

    /// Lets one clock cycle pass.
    fn dot(&mut self)
        requires
            old(self)@.wf(),
            old(self)@.ticks < u64::MAX,
        ensures
            final(self)@ == old(self)@.dot(),
            final(self)@.wf(),
            final(self)@.ticks == old(self)@.ticks + 1,
    {
        self.ticks += 1;
        self.timer.tick(&mut self.interrupts);
        self.ppu.tick(&mut self.interrupts);
    }

    /// Stores a byte, and lets the device that owns the address know.
    fn store(&mut self, address: u16, value: u8)
        requires
            old(self)@.wf(),
        ensures
            final(self)@ == old(self)@.store(address, value),
            final(self)@.wf(),
            final(self)@.ticks == old(self)@.ticks,
    {
        // Write everything to bus just in case
        self.bus.write(address, value);

        if 0x8000 <= address && address <= 0x9FFF {
            self.ppu.vram_write(address, value);
        } else if 0xFE00 <= address && address <= 0xFE9F {
            self.store_oam(address, value);
        } else if (0xFF00 <= address && address <= 0xFF7F) || address == 0xFFFF {
            self.store_io(address, value);
        }
    }

    /// Writes a byte of object attribute memory, unless a transfer is active.
    fn store_oam(&mut self, address: u16, value: u8)
        requires
            old(self)@.wf(),
            is_oam(address),
        ensures
            final(self)@ == (if old(self)@.dma.active {
                old(self)@
            } else {
                EmulatorView { ppu: old(self)@.ppu.oam_written(address - 0xFE00, value), ..old(self)@ }
            }),
            final(self)@.wf(),
    {
        if !self.dma.is_active() {
            self.ppu.oam_write(address, value);
        }
    }

    /// Lets the device that owns a register know of a write to it.
    fn store_io(&mut self, address: u16, value: u8)
        requires
            old(self)@.wf(),
            is_io(address),
        ensures
            final(self)@ == old(self)@.store_io(address, value),
            final(self)@.wf(),
            final(self)@.ticks == old(self)@.ticks,
    {
        let register = HardwareRegister::from_u16(address);
        match register {
            Some(HardwareRegister::SC) => {
                let serial_transfer_requested = value == 0x81;

                if serial_transfer_requested {
                    let byte = self.bus.read_register(HardwareRegister::SB);
                    self.debug_msg.push(byte);
                }
            },
            Some(HardwareRegister::DIV)
            | Some(HardwareRegister::TIMA)
            | Some(HardwareRegister::TMA)
            | Some(HardwareRegister::TAC) => {
                self.timer.write(address, value);
            },
            Some(HardwareRegister::IF) => {
                self.interrupts.interrupt_flag = InterruptFlag::from_bits_truncate(value);
            },
            Some(HardwareRegister::LCDC)
            | Some(HardwareRegister::STAT)
            | Some(HardwareRegister::SCY)
            | Some(HardwareRegister::SCX)
            | Some(HardwareRegister::LY)
            | Some(HardwareRegister::LYC)
            | Some(HardwareRegister::BGP)
            | Some(HardwareRegister::OBP0)
            | Some(HardwareRegister::OBP1)
            | Some(HardwareRegister::WY)
            | Some(HardwareRegister::WX) => {
                self.ppu.lcd_write(register.unwrap(), value);
            },
            Some(HardwareRegister::DMA) => self.dma.start(value),
            Some(HardwareRegister::IE) => {
                self.interrupts.interrupt_enable = InterruptFlag::from_bits_truncate(value);
            },
            _ => {},
        }
    }
}

/// A memory cycle changes neither what the bus holds nor video RAM, and it
/// counts four clock cycles.
pub proof fn lemma_tick_keeps_memory(v: EmulatorView)
    ensures
        v.tick().bus == v.bus,
        v.tick().ppu.vram == v.ppu.vram,
        v.tick().debug_msg == v.debug_msg,
        v.ticks + 4 <= u64::MAX ==> v.tick().ticks == v.ticks + 4,
{
    lemma_dot_keeps_memory(v);
    lemma_dot_keeps_memory(v.dot());
    lemma_dot_keeps_memory(v.dot().dot());
    lemma_dot_keeps_memory(v.dot().dot().dot());
}

/// A clock cycle changes neither what the bus holds, nor video RAM, nor
/// object attribute memory, nor the OAM-DMA engine.
pub proof fn lemma_dot_keeps_memory(v: EmulatorView)
    ensures
        v.dot().bus == v.bus,
        v.dot().dma == v.dma,
        v.dot().ppu.vram == v.ppu.vram,
        v.dot().ppu.oam == v.ppu.oam,
        v.dot().debug_msg == v.debug_msg,
        v.ticks < u64::MAX ==> v.dot().ticks == v.ticks + 1,
{
    lemma_tick_keeps_memory_of_unit(v.ppu);
}

/// An OAM transfer in the machine. After a write of `page` to the `DMA`
/// register and `n` memory cycles, of which the cycle of the write is the
/// first, the first `n - 2` bytes of object attribute memory, up to all 160
/// of them, are the bytes of the page as the bus gives them, and the
/// transfer is active until the 160th byte is copied. Nothing is written by
/// the processor in these cycles.
pub proof fn lemma_transfer_in_machine(v: EmulatorView, page: u8, n: nat)
    requires
        v.ppu.oam.len() == 40,
    ensures
        ({
            let started = v.store(0xFF46, page);
            let after = started.ticks(n);
            let copied: int = if n <= 2 {
                0
            } else if n - 2 < 160 {
                n - 2
            } else {
                160
            };
            &&& after.bus == started.bus
            &&& after.ppu.oam.len() == 40
            &&& after.dma.active == (n < 162)
            &&& after.dma.value == page
            &&& after.dma.active ==> after.dma.byte == copied && after.dma.start_delay == (if n < 2 {
                2 - n
            } else {
                0
            })
            &&& forall|i: int|
                0 <= i < copied ==> #[trigger] after.ppu.oam_byte(i) == started.bus.read((page * 256 + i) as u16)
            &&& forall|i: int| copied <= i < 160 ==> #[trigger] after.ppu.oam_byte(i) == v.ppu.oam_byte(i)
        }),
    decreases n,
{
    let started = v.store(0xFF46, page);
    if n > 0 {
        lemma_transfer_in_machine(v, page, (n - 1) as nat);
        let before = started.ticks((n - 1) as nat);
        let s = before.dot().dot().dot().dot();
        lemma_dot_keeps_memory(before);
        lemma_dot_keeps_memory(before.dot());
        lemma_dot_keeps_memory(before.dot().dot());
        lemma_dot_keeps_memory(before.dot().dot().dot());
        assert(s.ppu.oam == before.ppu.oam);
        assert(s.dma == before.dma);
        assert(s.bus == before.bus);
        let after = before.tick();
        assert forall|i: int| 0 <= i < 160 implies #[trigger] s.ppu.oam_byte(i) == before.ppu.oam_byte(i) by {}
        if before.dma.active && before.dma.start_delay == 0 {
            let k = before.dma.byte as int;
            assert forall|i: int| 0 <= i < 160 implies #[trigger] after.ppu.oam_byte(i) == (if i == k {
                s.bus.read(before.dma.source())
            } else {
                s.ppu.oam_byte(i)
            }) by {
                lemma_oam_written(s.ppu, k, s.bus.read(before.dma.source()), i);
            }
        } else {
            assert forall|i: int| 0 <= i < 160 implies #[trigger] after.ppu.oam_byte(i) == s.ppu.oam_byte(i) by {}
        }
    }
}

/// What is written to work RAM, high RAM or video RAM is read back from
/// there, right after the write and after its memory cycle has passed.
pub proof fn lemma_write_then_read(v: EmulatorView, address: u16, value: u8)
    requires
        v.wf(),
        is_wram(address) || is_hram(address) || is_vram(address),
    ensures
        v.store(address, value).peek(address) == value,
        v.store(address, value).tick().peek(address) == value,
{
    let s = v.store(address, value);
    lemma_tick_keeps_memory(s);
    assert(s.peek(address) == value);
    if is_vram(address) {
        assert(s.tick().ppu.vram == s.ppu.vram);
    } else {
        assert(s.tick().bus == s.bus);
    }
}

/// While an OAM transfer is active, object attribute memory reads as `0xFF`
/// and a write to it changes nothing but the store of the bus.
pub proof fn lemma_oam_is_locked_during_transfer(v: EmulatorView, address: u16, value: u8)
    requires
        v.dma.active,
        is_oam(address),
    ensures
        v.peek(address) == 0xFF,
        v.store(address, value) == (EmulatorView { bus: v.bus.write(address, value), ..v }),
        v.store(address, value).peek(address) == 0xFF,
{
}

/// A write to one address of work RAM, high RAM or video RAM does not
/// change what is read at another.
pub proof fn lemma_write_keeps_other(v: EmulatorView, address: u16, value: u8, other: u16)
    requires
        v.wf(),
        is_wram(address) || is_hram(address) || is_vram(address),
        other != address,
    ensures
        v.store(address, value).peek(other) == v.peek(other),
{
}

} // verus!
