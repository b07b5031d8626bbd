//! Emulation of the persistent save-storage peripherals of a handheld game
//! console cartridge: a plain SRAM buffer and a command-driven NOR flash
//! chip, routed through a memory-mapped address decoder.

pub mod buffer;
pub mod device;
pub mod flash;
pub mod laws;
pub mod map;
pub mod sram;
