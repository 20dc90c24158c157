//! The ways in which a disassembly run can fail.

use vstd::prelude::*;
use vstd::string::*;
use crate::disassembler::text::{push_decimal, spec_decimal};

verus! {

/// A fatal failure of a run. No failure is retried or skipped.
#[derive(Clone, Copy, Debug, PartialEq, Eq, Structural)]
pub enum DisasmError {
    /// A read would consume bytes past the end of the buffer.
    OutOfBounds,
    /// The dispatch table has no entry for the opcode byte that was read.
    UnknownOpcode(u8),
    /// A numeric field could not be parsed. The fixed-width fields of this
    /// format always parse, so no function of the crate returns it.
    MalformedNumericLiteral,
    /// The textual encoding of the byte stream is not valid base64.
    InvalidEncoding,
}

/// The failure that ended a run: what went wrong, and the offset at which
/// the instruction that could not be decoded begins.
#[derive(Clone, Copy, Debug, PartialEq, Eq, Structural)]
pub struct Failure {
    /// What went wrong.
    pub error: DisasmError,
    /// The offset of the opcode byte of the failed instruction.
    pub offset: usize,
}

impl DisasmError {
    /// The text of the message that `message` renders.
    pub open spec fn spec_message(self) -> Seq<char> {
        match self {
            DisasmError::OutOfBounds => "read past the end of the bytecode"@,
            DisasmError::UnknownOpcode(byte) => "Unknown Opcode: "@ + spec_decimal(byte as nat),
            DisasmError::MalformedNumericLiteral => "malformed numeric literal"@,
            DisasmError::InvalidEncoding => "bytecode text is not valid base64"@,
        }
    }

    /// A human-readable description; for an unknown opcode it names the byte
    /// in decimal.
    pub fn message(&self) -> (text: String)
        ensures
            text@ == self.spec_message(),
    {
        match self {
            DisasmError::OutOfBounds => String::from_str("read past the end of the bytecode"),
            DisasmError::UnknownOpcode(byte) => {
                let mut text = String::from_str("Unknown Opcode: ");
                push_decimal(&mut text, *byte as u64);
                text
            },
            DisasmError::MalformedNumericLiteral => String::from_str("malformed numeric literal"),
            DisasmError::InvalidEncoding => String::from_str("bytecode text is not valid base64"),
        }
    }
}

} // verus!
