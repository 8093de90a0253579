//! Core of an 8-bit game-console CPU emulator: an eight-register file with a
//! packed flags register and virtual 16-bit register pairs, an instruction
//! decoder over a two-level opcode space, and a fetch-decode-execute engine
//! that reads code bytes through a minimal memory-device capability.

pub mod registers;
pub mod instruction;
pub mod memory;
pub mod cpu;
