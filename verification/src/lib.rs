//! Core of a Nintendo Entertainment System emulator: a cycle-counted 6502
//! CPU, the memory bus with address decoding and mirroring, an iNES v1
//! cartridge loader, and a scanline-driven PPU skeleton.
pub mod bus;
pub mod common;
pub mod cpu;
pub mod ppu;
pub mod rom;
