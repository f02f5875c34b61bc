//! Core of an emulator for a classic 8-bit handheld game console: the
//! processor's register file and flags, the instruction handlers, the opcode
//! decoder, and the memory bus that routes every 16-bit address to one of the
//! fixed memory regions.

pub mod cpu;
pub mod error;
pub mod gameboy;
pub mod memory_bus;
pub mod utils;
