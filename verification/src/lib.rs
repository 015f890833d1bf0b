//! A cycle-stepped emulator core for a classic 8-bit handheld game console.
//!
//! The library models the CPU instruction engine, the memory bus that routes
//! every read and write to the correct peripheral (cartridge banking, work and
//! high RAM, picture unit, timer, input, serial port and the color-mode
//! register block), interrupt dispatch, DMA, and the picture-generation
//! timing state machine.  Every state transition is specified by contracts
//! and checked by Verus.
//!
//! Unmapped or write-blocked addresses follow the lenient bus policy: a read
//! of an unmapped address yields 0xFF and a write to one is dropped, so every
//! bus access is total.  Loading a cartridge image validates the header and
//! reports a [`cartridge::LoadError`] instead of constructing partial state.

pub mod bios;
pub mod bits;
pub mod cartridge;
pub mod cgb;
pub mod common;
pub mod cpu;
pub mod gamepad;
pub mod instruction;
pub mod mmu;
pub mod ppu;
pub mod serial;
pub mod timer;
