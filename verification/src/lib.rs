//! Cycle-stepped emulation core for the original Game Boy (DMG).
//!
//! The core is a single aggregate, [`gb::GameBoy`], advanced one machine
//! cycle at a time by [`gb::GameBoy::tick`].  Every subsystem — the SM83
//! interpreter, the memory bus with cartridge bank mapping, the interrupt
//! controller, the hardware timer, the scanline renderer and the joypad
//! latch — works on that shared state, and each step carries a contract
//! that pins down the new state in terms of the old one.

pub mod display;
pub mod fde;
pub mod gb;
pub mod header;
pub mod isr;
pub mod laws;
pub mod log;
pub mod mbc;
pub mod memory;
pub mod renderer;
pub mod util;
