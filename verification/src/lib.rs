//! A verified Game Boy emulator core: the cycle-synchronized LR35902
//! CPU, the memory-management unit with cartridge bank switching, the
//! scanline-based pixel-processing unit, the timer and the interrupt
//! controller. Host shells supply the display surface, input events and
//! file storage around it.

pub mod cpu;
pub mod interrupts;
pub mod joypad;
pub mod mbc;
pub mod mmu;
pub mod ppu;
pub mod rom;
pub mod rusty_boy;
pub mod timer;
pub mod utils;
