//! The OAM-DMA engine: once started, it copies the 160 bytes of a page into
//! object attribute memory, one byte each memory cycle, after a delay of two
//! cycles.

use vstd::prelude::*;
use crate::bus::{BusView, MemoryBus};
use crate::ppu::{PpuView, PPU};

verus! {

#[derive(Copy, Clone, Debug, PartialEq, Eq, Structural)]
pub struct DMA {
    pub active: bool,
    /// The number of the byte that is copied next.
    pub byte: u8,
    /// The memory cycles that pass before the first byte is copied.
    pub start_delay: u8,
    /// The page that is copied: the high byte of the source address.
    pub value: u8,
}

impl DMA {
    /// While a transfer is active, fewer than 160 bytes of it are done.
    pub open spec fn wf(self) -> bool {
        self.active ==> self.byte < 160
    }

    pub open spec fn spec_new() -> DMA {
        DMA { active: false, byte: 0, start_delay: 0, value: 0 }
    }

    /// The engine after a write of `value` to the `DMA` register.
    pub open spec fn spec_start(self, value: u8) -> DMA {
        DMA { active: true, byte: 0, start_delay: 2, value }
    }

    /// The address from which the next byte is copied.
    pub open spec fn source(self) -> u16 {
        (self.value * 256 + self.byte) as u16
    }

    /// The engine and the unit after one memory cycle. An idle engine does
    /// nothing; a started one waits for two cycles and then copies a byte
    /// each cycle, from the bus to object attribute memory, until 160 are
    /// copied.
    pub open spec fn spec_tick_cycle(self, bus: BusView, ppu: PpuView) -> (DMA, PpuView) {
        if !self.active {
            (self, ppu)
        } else if self.start_delay > 0 {
            (DMA { start_delay: (self.start_delay - 1) as u8, ..self }, ppu)
        } else {
            (
                DMA { byte: (self.byte + 1) as u8, active: self.byte + 1 < 160, ..self },
                ppu.oam_written(self.byte as int, bus.read(self.source())),
            )
        }
    }

    /// The engine and the unit after `n` memory cycles with the same bus.
    pub open spec fn spec_run(self, bus: BusView, ppu: PpuView, n: nat) -> (DMA, PpuView)
        decreases n,
    {
        if n == 0 {
            (self, ppu)
        } else {
            let (dma, unit) = self.spec_run(bus, ppu, (n - 1) as nat);
            dma.spec_tick_cycle(bus, unit)
        }
    }

    pub fn new() -> (dma: DMA)
        ensures
            dma == DMA::spec_new(),
            dma.wf(),
    {
        DMA { active: false, byte: 0, start_delay: 0, value: 0 }
    }

    /// Starts a transfer from the page `value`.
    pub fn start(&mut self, value: u8)
        ensures
            *final(self) == old(self).spec_start(value),
            final(self).wf(),
    {
        self.active = true;
        self.byte = 0;
        self.start_delay = 2;
        self.value = value;
    }

    /// Lets one memory cycle pass.
    pub fn tick_cycle(&mut self, bus: &MemoryBus, ppu: &mut PPU)
        requires
            old(self).wf(),
        ensures
            (*final(self), final(ppu)@) == old(self).spec_tick_cycle(bus@, old(ppu)@),
            final(self).wf(),
            old(ppu)@.wf() ==> final(ppu)@.wf(),
    {
        if !self.active {
            return;
        }
        if self.start_delay > 0 {
            self.start_delay -= 1;
            return;
        }
        let address = (self.value as u16) * 0x100 + (self.byte as u16);
        let oam_value = bus.read(address);
        ppu.oam_write(self.byte as u16, oam_value);

        self.byte += 1;
        self.active = self.byte < 0xA0;  // Up to 160 bytes
    }

    /// Whether the invariant of the engine holds: see [`DMA::wf`].
    pub fn is_well_formed(&self) -> (ok: bool)
        ensures
            ok == self.wf(),
    {
        !self.active || self.byte < 160
    }

    pub fn is_active(&self) -> (active: bool)
        ensures
            active == self.active,
    {
        self.active
    }
}

impl Default for DMA {
    fn default() -> (dma: DMA)
        ensures
            dma == DMA::spec_new(),
    {
        DMA::new()
    }
}

/// A transfer from the page `page`, `n` memory cycles after its start: the
/// first two cycles copy nothing, and each cycle after them copies one byte,
/// so that the first `n - 2` bytes of object attribute memory, up to all 160
/// of them, are the bytes of the page as the bus gives them. The transfer is
/// active until the 160th byte is copied. What lies beyond the copied bytes
/// is as it was.
pub proof fn lemma_transfer(dma: DMA, page: u8, bus: BusView, ppu: PpuView, n: nat)
    requires
        ppu.oam.len() == 40,
    ensures
        ({
            let (after, unit) = dma.spec_start(page).spec_run(bus, ppu, n);
            let copied: int = if n <= 2 {
                0
            } else if n - 2 < 160 {
                n - 2
            } else {
                160
            };
            &&& unit.oam.len() == 40
            &&& after.active == (n < 162)
            &&& after.value == page
            &&& after.active ==> after.byte == copied && after.start_delay == (if n < 2 {
                2 - n
            } else {
                0
            })
            &&& forall|i: int|
                0 <= i < copied ==> #[trigger] unit.oam_byte(i) == bus.read((page * 256 + i) as u16)
            &&& forall|i: int| copied <= i < 160 ==> #[trigger] unit.oam_byte(i) == ppu.oam_byte(i)
            &&& unit == PpuView { oam: unit.oam, ..ppu }
        }),
    decreases n,
{
    if n > 0 {
        lemma_transfer(dma, page, bus, ppu, (n - 1) as nat);
        let (before, unit0) = dma.spec_start(page).spec_run(bus, ppu, (n - 1) as nat);
        let (after, unit) = before.spec_tick_cycle(bus, unit0);
        if before.active && before.start_delay == 0 {
            let k = before.byte as int;
            assert forall|i: int| 0 <= i < 160 implies #[trigger] unit.oam_byte(i) == (if i == k {
                bus.read(before.source())
            } else {
                unit0.oam_byte(i)
            }) by {
                lemma_oam_written(unit0, k, bus.read(before.source()), i);
            }
        }
    }
}

/// A write to object attribute memory changes the byte that is written and
/// no other.
pub proof fn lemma_oam_written(ppu: PpuView, offset: int, value: u8, other: int)
    requires
        ppu.oam.len() == 40,
        0 <= offset < 160,
        0 <= other < 160,
    ensures
        ppu.oam_written(offset, value).oam_byte(other) == (if other == offset {
            value
        } else {
            ppu.oam_byte(other)
        }),
        ppu.oam_written(offset, value).oam.len() == 40,
{
}

} // verus!
