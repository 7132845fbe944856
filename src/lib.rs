//! An instruction-level emulator core for a 6502-family processor wired to a
//! console-style memory-mapped address bus.
pub mod bus;
pub mod error;
pub mod ines_parser;
pub mod instruction;
pub mod memory;
pub mod p6502;
