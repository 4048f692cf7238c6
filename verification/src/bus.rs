//! The memory bus: a flat store of 64 KiB, with the cartridge in front of it
//! where the cartridge is mapped.
//!
//! ```text
//! 0x0000 - 0x7FFF : cartridge ROM
//! 0x8000 - 0x9FFF : video RAM
//! 0xA000 - 0xBFFF : cartridge RAM (read from the cartridge's bytes)
//! 0xC000 - 0xDFFF : work RAM
//! 0xE000 - 0xFDFF : echo RAM, reads as zero
//! 0xFE00 - 0xFE9F : object attribute memory
//! 0xFEA0 - 0xFEFF : unusable, reads as zero
//! 0xFF00 - 0xFF7F : I/O registers
//! 0xFF80 - 0xFFFE : high RAM
//! 0xFFFF          : interrupt enable register
//! ```

use vstd::prelude::*;
use crate::bits::lemma_word_bits;
use crate::cart::Cartridge;

verus! {

/// The memory-mapped registers of the machine.
///
/// - `P1_JOYP`: joypad
/// - `SB`, `SC`: serial transfer data and control
/// - `DIV`, `TIMA`, `TMA`, `TAC`: divider, timer counter, timer modulo, timer control
/// - `IF`, `IE`: interrupt flag and interrupt enable
/// - `LCDC`, `STAT`: display control and status
/// - `SCY`, `SCX`: background viewport position
/// - `LY`, `LYC`: current scanline and the scanline to compare it with
/// - `DMA`: source page and start of an OAM transfer
/// - `BGP`, `OBP0`, `OBP1`: background and object palettes
/// - `WY`, `WX`: window position (`WX` plus 7)
#[allow(non_camel_case_types)]
#[derive(Copy, Clone, Debug, PartialEq, Eq, Structural)]
pub enum HardwareRegister {
    P1_JOYP,
    SB,
    SC,
    DIV,
    TIMA,
    TMA,
    TAC,
    IF,
    LCDC,
    STAT,
    SCY,
    SCX,
    LY,
    LYC,
    DMA,
    BGP,
    OBP0,
    OBP1,
    WY,
    WX,
    IE,
}

impl HardwareRegister {
    /// The address of the register.
    pub open spec fn spec_address(self) -> u16 {
        match self {
            HardwareRegister::P1_JOYP => 0xFF00,
            HardwareRegister::SB => 0xFF01,
            HardwareRegister::SC => 0xFF02,
            HardwareRegister::DIV => 0xFF04,
            HardwareRegister::TIMA => 0xFF05,
            HardwareRegister::TMA => 0xFF06,
            HardwareRegister::TAC => 0xFF07,
            HardwareRegister::IF => 0xFF0F,
            HardwareRegister::LCDC => 0xFF40,
            HardwareRegister::STAT => 0xFF41,
            HardwareRegister::SCY => 0xFF42,
            HardwareRegister::SCX => 0xFF43,
            HardwareRegister::LY => 0xFF44,
            HardwareRegister::LYC => 0xFF45,
            HardwareRegister::DMA => 0xFF46,
            HardwareRegister::BGP => 0xFF47,
            HardwareRegister::OBP0 => 0xFF48,
            HardwareRegister::OBP1 => 0xFF49,
            HardwareRegister::WY => 0xFF4A,
            HardwareRegister::WX => 0xFF4B,
            HardwareRegister::IE => 0xFFFF,
        }
    }

    /// The register at an address, if there is one.
    pub open spec fn spec_from_u16(address: u16) -> Option<HardwareRegister> {
        if address == 0xFF00 {
            Some(HardwareRegister::P1_JOYP)
        } else if address == 0xFF01 {
            Some(HardwareRegister::SB)
        } else if address == 0xFF02 {
            Some(HardwareRegister::SC)
        } else if address == 0xFF04 {
            Some(HardwareRegister::DIV)
        } else if address == 0xFF05 {
            Some(HardwareRegister::TIMA)
        } else if address == 0xFF06 {
            Some(HardwareRegister::TMA)
        } else if address == 0xFF07 {
            Some(HardwareRegister::TAC)
        } else if address == 0xFF0F {
            Some(HardwareRegister::IF)
        } else if address == 0xFF40 {
            Some(HardwareRegister::LCDC)
        } else if address == 0xFF41 {
            Some(HardwareRegister::STAT)
        } else if address == 0xFF42 {
            Some(HardwareRegister::SCY)
        } else if address == 0xFF43 {
            Some(HardwareRegister::SCX)
        } else if address == 0xFF44 {
            Some(HardwareRegister::LY)
        } else if address == 0xFF45 {
            Some(HardwareRegister::LYC)
        } else if address == 0xFF46 {
            Some(HardwareRegister::DMA)
        } else if address == 0xFF47 {
            Some(HardwareRegister::BGP)
        } else if address == 0xFF48 {
            Some(HardwareRegister::OBP0)
        } else if address == 0xFF49 {
            Some(HardwareRegister::OBP1)
        } else if address == 0xFF4A {
            Some(HardwareRegister::WY)
        } else if address == 0xFF4B {
            Some(HardwareRegister::WX)
        } else if address == 0xFFFF {
            Some(HardwareRegister::IE)
        } else {
            None
        }
    }

    /// Whether the register belongs to the display.
    pub open spec fn spec_is_lcd(self) -> bool {
        0xFF40 <= self.spec_address() <= 0xFF4B
    }

    #[verifier::when_used_as_spec(spec_address)]
    pub fn address(self) -> (a: u16)
        ensures
            a == self.spec_address(),
            a >= 0xFF00,
    {
        match self {
            HardwareRegister::P1_JOYP => 0xFF00,
            HardwareRegister::SB => 0xFF01,
            HardwareRegister::SC => 0xFF02,
            HardwareRegister::DIV => 0xFF04,
            HardwareRegister::TIMA => 0xFF05,
            HardwareRegister::TMA => 0xFF06,
            HardwareRegister::TAC => 0xFF07,
            HardwareRegister::IF => 0xFF0F,
            HardwareRegister::LCDC => 0xFF40,
            HardwareRegister::STAT => 0xFF41,
            HardwareRegister::SCY => 0xFF42,
            HardwareRegister::SCX => 0xFF43,
            HardwareRegister::LY => 0xFF44,
            HardwareRegister::LYC => 0xFF45,
            HardwareRegister::DMA => 0xFF46,
            HardwareRegister::BGP => 0xFF47,
            HardwareRegister::OBP0 => 0xFF48,
            HardwareRegister::OBP1 => 0xFF49,
            HardwareRegister::WY => 0xFF4A,
            HardwareRegister::WX => 0xFF4B,
            HardwareRegister::IE => 0xFFFF,
        }
    }

    /// The register at `address`; `None` where there is none.
    #[verifier::when_used_as_spec(spec_from_u16)]
    pub fn from_u16(address: u16) -> (register: Option<HardwareRegister>)
        ensures
            register == HardwareRegister::spec_from_u16(address),
            register matches Some(r) ==> r.spec_address() == address,
            register is None ==> forall|r: HardwareRegister| r.spec_address() != address,
    {
        match address {
            0xFF00 => Some(HardwareRegister::P1_JOYP),
            0xFF01 => Some(HardwareRegister::SB),
            0xFF02 => Some(HardwareRegister::SC),
            0xFF04 => Some(HardwareRegister::DIV),
            0xFF05 => Some(HardwareRegister::TIMA),
            0xFF06 => Some(HardwareRegister::TMA),
            0xFF07 => Some(HardwareRegister::TAC),
            0xFF0F => Some(HardwareRegister::IF),
            0xFF40 => Some(HardwareRegister::LCDC),
            0xFF41 => Some(HardwareRegister::STAT),
            0xFF42 => Some(HardwareRegister::SCY),
            0xFF43 => Some(HardwareRegister::SCX),
            0xFF44 => Some(HardwareRegister::LY),
            0xFF45 => Some(HardwareRegister::LYC),
            0xFF46 => Some(HardwareRegister::DMA),
            0xFF47 => Some(HardwareRegister::BGP),
            0xFF48 => Some(HardwareRegister::OBP0),
            0xFF49 => Some(HardwareRegister::OBP1),
            0xFF4A => Some(HardwareRegister::WY),
            0xFF4B => Some(HardwareRegister::WX),
            0xFFFF => Some(HardwareRegister::IE),
            _ => None,
        }
    }
}

/// Every register is found again at its address.
pub proof fn lemma_register_at_its_address(register: HardwareRegister)
    ensures
        HardwareRegister::spec_from_u16(register.spec_address()) == Some(register),
{
}

#[derive(Debug)]
pub struct MemoryBus {
    pub bytes: [u8; 0x10000],
    pub rom: Option<Cartridge>,
}

/// What a bus holds: its store, and the bytes of the cartridge if one is in.
pub struct BusView {
    pub bytes: Seq<u8>,
    pub rom: Option<Seq<u8>>,
}

impl View for MemoryBus {
    type V = BusView;

    open spec fn view(&self) -> BusView {
        BusView {
            bytes: self.bytes@,
            rom: match self.rom {
                Some(cartridge) => Some(cartridge.data@),
                None => None,
            },
        }
    }
}

/// The addresses at which the cartridge is read.
pub open spec fn is_cartridge_address(address: u16) -> bool {
    address <= 0x7FFF || 0xA000 <= address <= 0xBFFF
}

/// The addresses that read as zero: echo RAM and the unusable area.
pub open spec fn is_unmapped_address(address: u16) -> bool {
    0xE000 <= address <= 0xFDFF || 0xFEA0 <= address <= 0xFEFF
}

/// The addresses at which the bus gives back what was written to it: video
/// RAM, work RAM, object attribute memory, the I/O page, high RAM and `IE`.
pub open spec fn is_stored_address(address: u16) -> bool {
    !is_cartridge_address(address) && !is_unmapped_address(address)
}

impl BusView {
    /// What a read of `address` gives. Where the cartridge is mapped, its
    /// byte at that address; `0xFF` if no cartridge is in or if it is
    /// shorter than that.
    pub open spec fn read(self, address: u16) -> u8 {
        if is_cartridge_address(address) {
            match self.rom {
                Some(data) => if address < data.len() {
                    data[address as int]
                } else {
                    0xFF
                },
                None => 0xFF,
            }
        } else if is_unmapped_address(address) {
            0
        } else {
            self.bytes[address as int]
        }
    }

    /// The word at `address`, low byte first.
    pub open spec fn read16(self, address: u16) -> u16
        recommends
            address < 0xFFFF,
    {
        (self.read(address) + 256 * self.read((address + 1) as u16)) as u16
    }

    /// The bus after `value` has been written to `address`.
    pub open spec fn write(self, address: u16, value: u8) -> BusView {
        BusView { bytes: self.bytes.update(address as int, value), ..self }
    }

    /// The bus after a word has been written to `address`, low byte first.
    pub open spec fn write16(self, address: u16, value: u16) -> BusView
        recommends
            address < 0xFFFF,
    {
        self.write(address, (value % 256) as u8).write((address + 1) as u16, (value / 256) as u8)
    }
}

impl Default for MemoryBus {
    fn default() -> (bus: MemoryBus)
        ensures
            bus@.rom is None,
            bus@.bytes == Seq::new(0x10000, |i: int| 0u8),
    {
        MemoryBus::new()
    }
}

impl MemoryBus {
    pub fn new() -> (bus: MemoryBus)
        ensures
            bus@.rom is None,
            bus@.bytes == Seq::new(0x10000, |i: int| 0u8),
    {
        MemoryBus { bytes: [0;0x10000], rom: None }
    }

    pub fn from_rom(rom: Option<Cartridge>) -> (bus: MemoryBus)
        ensures
            bus.rom == rom,
            bus@.bytes == Seq::new(0x10000, |i: int| 0u8),
    {
        MemoryBus { bytes: [0;0x10000], rom }
    }

    pub fn set_rom(&mut self, rom: Option<Cartridge>)
        ensures
            final(self).rom == rom,
            final(self).bytes == old(self).bytes,
    {
        self.rom = rom;
    }

    pub fn read(&self, address: u16) -> (value: u8)
        ensures
            value == self@.read(address),
    {
        match address {
            0..=0x7FFF | 0xA000..=0xBFFF => {
                match &self.rom {
                    Some(cartridge) => {
                        if (address as usize) < cartridge.data.len() {
                            cartridge.data[address as usize]
                        } else {
                            0xFF
                        }
                    },
                    None => 0xFF,
                }
            },
            0xE000..=0xFDFF => {
                // Reserved, echo RAM
                0
            },
            0xFEA0..=0xFEFF => {
                // Reserved, unusable
                0
            },
            _ => self.bytes[address as usize],
        }
    }

    pub fn read16(&self, address: u16) -> (value: u16)
        requires
            address < 0xFFFF,
        ensures
            value == self@.read16(address),
    {
        proof {
            lemma_word_bits();
        }
        let lo = self.read(address) as u16;
        let hi = self.read(address + 1) as u16;
        lo | (hi << 8)
    }

    pub fn read_register(&self, register: HardwareRegister) -> (value: u8)
        ensures
            value == self@.read(register.spec_address()),
            value == self@.bytes[register.spec_address() as int],
    {
        let address = register.address();
        self.read(address)
    }

    pub fn write(&mut self, address: u16, value: u8)
        ensures
            final(self)@ == old(self)@.write(address, value),
            final(self).rom == old(self).rom,
    {
        self.bytes[address as usize] = value;
    }

    pub fn write16(&mut self, address: u16, value: u16)
        requires
            address < 0xFFFF,
        ensures
            final(self)@ == old(self)@.write16(address, value),
            final(self).rom == old(self).rom,
    {
        proof {
            lemma_word_bits();
        }
        let lo: u8 = (value & 0x00FF) as u8;
        let hi: u8 = (value >> 8) as u8;
        self.bytes[address as usize] = lo;
        self.bytes[(address + 1) as usize] = hi;
    }

    pub fn write_register(&mut self, register: HardwareRegister, value: u8)
        ensures
            final(self)@ == old(self)@.write(register.spec_address(), value),
            final(self).rom == old(self).rom,
    {
        let address = register.address();
        self.write(address, value);
    }
}

/// What is written to the bus at an address of video RAM, work RAM, object
/// attribute memory, the I/O page or high RAM is read back from there, and
/// nothing else that can be read changes.
pub proof fn lemma_write_then_read(bus: BusView, address: u16, value: u8, other: u16)
    requires
        bus.bytes.len() == 0x10000,
    ensures
        is_stored_address(address) ==> bus.write(address, value).read(address) == value,
        other != address ==> bus.write(address, value).read(other) == bus.read(other),
        !is_stored_address(address) ==> bus.write(address, value).read(address) == bus.read(address),
{
}

} // verus!
