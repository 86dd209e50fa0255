//! Core of a cycle-driven emulator for the monochrome Game Boy (DMG).
//!
//! The CPU, memory bus, cartridge bank controllers, timer, OAM DMA, joypad,
//! LCD registers, PPU and APU are plain state machines whose behaviour is
//! stated in contracts and proved.

pub mod common;
pub mod cpu;
pub mod bus;
pub mod cart;
pub mod ram;
pub mod timer;
pub mod dma;
pub mod gamepad;
pub mod lcd;
pub mod ppu;
pub mod apu;
pub mod emu;
