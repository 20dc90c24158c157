//! The decode engine: cursor, value decoders, register table, dispatch table,
//! instruction formatters and driver.

pub mod disassembler;
pub mod double;
pub mod error;
pub mod instructions;
pub mod laws;
pub mod opcodes;
pub mod text;
