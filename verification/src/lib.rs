//! Disassembler for a register-based virtual-machine bytecode.
//!
//! The input is a byte stream; the output is one trace line per decoded
//! instruction. Every function of the crate carries a contract over a
//! mathematical view of the decoder state, and the contracts are proved.

pub mod bytecode;
pub mod disassembler;
