//! Core of a cycle-aware emulator of a monochrome handheld game console: the
//! instruction interpreter, the memory bus, the pixel-processing unit, the
//! divider/timer, the OAM-DMA engine and the interrupt line, each with a
//! machine-checked contract.

pub mod bits;
pub mod bus;
pub mod cart;
pub mod cpu;
pub mod dma;
pub mod emu;
pub mod gui;
pub mod interrupts;
pub mod lcd;
pub mod ppu;
pub mod timer;

pub use crate::emu::Emulator;
