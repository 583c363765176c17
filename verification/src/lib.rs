//! A Game Boy (DMG) emulator core: CPU, bus, MBC1 cartridge, PPU, timer and
//! OAM DMA, each with a mathematical model that the executable code is
//! proved to follow.
pub mod emulator;
