//! The memory-mapped core of an NES: the CPU bus with its address decoder,
//! the PPU register and memory model, and the controller latch.
pub mod bus;
pub mod cartridge;
pub mod joypad;
pub mod ppu;
