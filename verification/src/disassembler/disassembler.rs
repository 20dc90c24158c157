//! The decoder state and its read primitives.

use std::collections::HashMap;
use vstd::prelude::*;
use vstd::string::*;
use crate::bytecode::bytearray::{decode_bytecode, spec_decode_bytecode};
use crate::disassembler::double::{spec_decode_double, DecodedDouble};
use crate::disassembler::error::{DisasmError, Failure};
use crate::disassembler::instructions::Instructions;
use crate::disassembler::opcodes::OpCodes;
use crate::disassembler::text::{
    push_char, push_decimal, push_register, push_text, spec_decimal, spec_register,
};

verus! {

/// The number of register slots.
pub const REGISTER_COUNT: usize = 256;

/// The mask that every byte of a string constant is XORed with.
pub const STRING_MASK: u8 = 50;

/// One slot of the register table.
#[derive(Debug)]
pub enum RegisterSlot {
    /// No constant was defined for the register.
    Unbound,
    /// The register holds the constant text.
    Constant(String),
}

impl View for RegisterSlot {
    type V = Option<Seq<char>>;

    open spec fn view(&self) -> Option<Seq<char>> {
        match self {
            RegisterSlot::Unbound => None,
            RegisterSlot::Constant(text) => Some(text@),
        }
    }
}

/// The mathematical state of a decoder.
pub struct DisassemblerView {
    /// The byte buffer; no operation changes it.
    pub bytes: Seq<u8>,
    /// The read position.
    pub offset: nat,
    /// The register table: the constant text of each bound register.
    pub registers: Seq<Option<Seq<char>>>,
    /// The trace lines produced so far, oldest first.
    pub trace: Seq<Seq<char>>,
    /// The failure that ended the run, once a step has failed.
    pub failure: Option<Failure>,
}

impl DisassemblerView {
    /// The state at the start of a run over `bytes`.
    pub open spec fn initial(bytes: Seq<u8>) -> Self {
        DisassemblerView {
            bytes,
            offset: 0,
            registers: Seq::new(REGISTER_COUNT as nat, |i: int| None),
            trace: Seq::empty(),
            failure: None,
        }
    }

    /// What holds of the state of every decoder.
    pub open spec fn wf(self) -> bool {
        &&& self.offset <= self.bytes.len()
        &&& self.registers.len() == REGISTER_COUNT
    }

    /// Whether `n` more bytes can be read.
    pub open spec fn fits(self, n: int) -> bool {
        self.offset + n <= self.bytes.len()
    }

    /// The byte `k` places after the read position.
    pub open spec fn at(self, k: int) -> u8 {
        self.bytes[self.offset + k]
    }

    /// The `n` bytes that start `k` places after the read position.
    pub open spec fn span(self, k: int, n: int) -> Seq<u8> {
        self.bytes.subrange(self.offset + k, self.offset + k + n)
    }

    /// The state after `n` bytes were consumed.
    pub open spec fn advance(self, n: nat) -> Self {
        DisassemblerView { offset: self.offset + n, ..self }
    }

    /// The state after a read that did not fit: nothing is left to read.
    pub open spec fn exhausted(self) -> Self {
        DisassemblerView { offset: self.bytes.len(), ..self }
    }

    /// The big-endian 16-bit word `k` places after the read position.
    pub open spec fn word16(self, k: int) -> u32 {
        ((self.at(k) as u32) << 8) | (self.at(k + 1) as u32)
    }

    /// The big-endian 32-bit word `k` places after the read position.
    pub open spec fn word32(self, k: int) -> u32 {
        ((self.at(k) as u32) << 24) | ((self.at(k + 1) as u32) << 16) | ((self.at(k + 2) as u32)
            << 8) | (self.at(k + 3) as u32)
    }

    /// The text of the string constant `k` places after the read position:
    /// a 16-bit length, then as many bytes, each XORed with the mask and
    /// taken as a code point.
    pub open spec fn string_at(self, k: int) -> Seq<char> {
        Seq::new(self.word16(k) as nat, |i: int| (self.at(k + 2 + i) ^ STRING_MASK) as char)
    }

    /// The display text of register `index`: its constant, or `reg` and the
    /// index while it is unbound.
    pub open spec fn resolve(self, index: u8) -> Seq<char> {
        match self.registers[index as int] {
            Some(text) => text,
            None => spec_register(index),
        }
    }

    /// The state after register `index` was bound to `text`.
    pub open spec fn define(self, index: u8, text: Seq<char>) -> Self {
        DisassemblerView { registers: self.registers.update(index as int, Some(text)), ..self }
    }

    /// The state after `line` was appended to the trace.
    pub open spec fn record(self, line: Seq<char>) -> Self {
        DisassemblerView { trace: self.trace.push(line), ..self }
    }

    /// The state after the instruction that begins at `offset` failed with
    /// `error`.
    pub open spec fn failed(self, error: DisasmError, offset: nat) -> Self {
        DisassemblerView { failure: Some(Failure { error, offset: offset as usize }), ..self }
    }
}

/// What a whole run comes to.
pub struct RunView {
    /// The state in which the run ends.
    pub state: DisassemblerView,
    /// The annotated lines of the instructions that were decoded, in order.
    pub lines: Seq<Seq<char>>,
    /// The failure that ended the run, if one did.
    pub error: Option<DisasmError>,
}

/// The texts of `lines`.
pub open spec fn spec_lines(lines: Seq<String>) -> Seq<Seq<char>> {
    lines.map_values(|line: String| line@)
}

/// The text of what a step returned.
pub open spec fn spec_step_text(stepped: Result<Option<String>, DisasmError>) -> Result<
    Option<Seq<char>>,
    DisasmError,
> {
    match stepped {
        Ok(Some(line)) => Ok(Some(line@)),
        Ok(None) => Ok(None),
        Err(e) => Err(e),
    }
}

impl DisassemblerView {
    /// A trace line with its offset marker: `0x`, the offset in decimal,
    /// four spaces, the line. `offset` is the read position right after the
    /// instruction.
    pub open spec fn annotate(offset: nat, line: Seq<char>) -> Seq<char> {
        "0x"@ + spec_decimal(offset) + "    "@ + line
    }

    /// The state after one step from this state: unchanged once a step has
    /// failed and at the end of the input. Where the opcode byte selects no
    /// kind, the position is just past it and the failure is recorded. Else
    /// it is what the formatter of the selected kind leaves, with the
    /// failure recorded where the operands do not fit.
    pub open spec fn step_state(self) -> Self {
        if self.failure is Some || !self.fits(1) {
            self
        } else {
            match Instructions::opcode_kind(self.at(0)) {
                Some(kind) => {
                    let after = Instructions::state_after(kind, self.advance(1));
                    match Instructions::outcome(kind, self.advance(1)) {
                        Ok(_) => after,
                        Err(e) => after.failed(e, self.offset),
                    }
                },
                None => self.advance(1).failed(
                    DisasmError::UnknownOpcode(self.at(0)),
                    self.offset,
                ),
            }
        }
    }

    /// What one step from this state returns: the recorded failure once a
    /// step has failed; nothing at the end of the input; `UnknownOpcode`
    /// with the byte where no kind is selected; `OutOfBounds` where the
    /// operands do not fit; else the annotated line.
    pub open spec fn step_result(self) -> Result<Option<Seq<char>>, DisasmError> {
        if self.failure is Some {
            Err(self.failure.unwrap().error)
        } else if !self.fits(1) {
            Ok(None)
        } else {
            match Instructions::opcode_kind(self.at(0)) {
                Some(kind) => match Instructions::outcome(kind, self.advance(1)) {
                    Ok(_) => Ok(
                        Some(
                            Self::annotate(
                                self.step_state().offset,
                                Instructions::line(kind, self.advance(1)),
                            ),
                        ),
                    ),
                    Err(e) => Err(e),
                },
                None => Err(DisasmError::UnknownOpcode(self.at(0))),
            }
        }
    }

    /// The run from this state: step after step until the input is used up
    /// or a step fails. No instruction ends it early, and a failure is
    /// final: from a failed state nothing more is decoded.
    pub open spec fn run(self) -> RunView
        decreases self.bytes.len() - self.offset,
    {
        if self.failure is Some {
            RunView { state: self, lines: Seq::empty(), error: Some(self.failure.unwrap().error) }
        } else if !self.fits(1) {
            RunView { state: self, lines: Seq::empty(), error: None }
        } else {
            match self.step_result() {
                Ok(Some(line)) => {
                    let rest = self.step_state().run();
                    RunView { state: rest.state, lines: seq![line] + rest.lines, error: rest.error }
                },
                Ok(None) => RunView { state: self, lines: Seq::empty(), error: None },
                Err(e) => RunView { state: self.step_state(), lines: Seq::empty(), error: Some(e) },
            }
        }
    }
}

/// A decoder over one byte buffer: the buffer, the read position, the
/// register table and the trace.
///
/// The state of every decoder is well-formed (`DisassemblerView::wf`): the
/// read position is within the buffer and the table has all its slots. The
/// methods pass that knowledge on in their contracts.
pub struct Disassembler {
    bytearray: Vec<u8>,
    ptr: usize,
    registers: Vec<RegisterSlot>,
    trace: Vec<String>,
    failure: Option<Failure>,
}

impl View for Disassembler {
    type V = DisassemblerView;

    closed spec fn view(&self) -> DisassemblerView {
        DisassemblerView {
            bytes: self.bytearray@,
            offset: self.ptr as nat,
            registers: self.registers@.map_values(|slot: RegisterSlot| slot@),
            trace: self.trace@.map_values(|line: String| line@),
            failure: self.failure,
        }
    }
}

impl Disassembler {
    #[verifier::type_invariant]
    spec fn inv(self) -> bool {
        &&& self.ptr <= self.bytearray.len()
        &&& self.registers.len() == REGISTER_COUNT
    }

    /// A decoder at the start of `bytes`, with every register unbound and an
    /// empty trace.
    pub fn from_bytes(bytes: Vec<u8>) -> (disasm: Self)
        ensures
            disasm@ == DisassemblerView::initial(bytes@),
    {
        let mut registers: Vec<RegisterSlot> = Vec::new();
        while registers.len() < REGISTER_COUNT
            invariant
                registers.len() <= REGISTER_COUNT,
                forall|i: int| 0 <= i < registers.len() ==> registers[i]@ is None,
            decreases REGISTER_COUNT - registers.len(),
        {
            registers.push(RegisterSlot::Unbound);
        }
        let disasm = Disassembler {
            bytearray: bytes,
            ptr: 0,
            registers,
            trace: Vec::new(),
            failure: None,
        };
        proof {
            assert(disasm@.registers =~= DisassemblerView::initial(bytes@).registers);
            assert(disasm@.trace =~= DisassemblerView::initial(bytes@).trace);
        }
        disasm
    }

    /// A decoder over the bytes that the encoded text `bytecode` stands for.
    /// Fails with `InvalidEncoding` exactly where the text, without its
    /// whitespace, is not valid base64.
    pub fn new(bytecode: String) -> (made: Result<Self, DisasmError>)
        ensures
            match made {
                Ok(disasm) => spec_decode_bytecode(bytecode@) matches Some(bytes) && disasm@
                    == DisassemblerView::initial(bytes),
                Err(e) => e == DisasmError::InvalidEncoding && spec_decode_bytecode(bytecode@)
                    is None,
            },
    {
        match decode_bytecode(bytecode) {
            Ok(bytes) => Ok(Self::from_bytes(bytes)),
            Err(e) => Err(e),
        }
    }

    /// The read position.
    pub fn position(&self) -> (offset: usize)
        ensures
            offset == self@.offset,
            self@.wf(),
    {
        proof {
            use_type_invariant(self);
        }
        self.ptr
    }

    /// The length of the byte buffer.
    pub fn len(&self) -> (length: usize)
        ensures
            length == self@.bytes.len(),
            self@.wf(),
    {
        proof {
            use_type_invariant(self);
        }
        self.bytearray.len()
    }

    /// The failure that ended the run, if a step has failed: the error and
    /// the offset at which the failed instruction begins.
    pub fn failure(&self) -> (failure: Option<Failure>)
        ensures
            failure == self@.failure,
    {
        self.failure
    }

    /// The trace lines produced so far, oldest first.
    pub fn trace(&self) -> (lines: &Vec<String>)
        ensures
            lines.len() == self@.trace.len(),
            forall|i: int| 0 <= i < lines.len() ==> lines[i]@ == self@.trace[i],
    {
        &self.trace
    }

    /// The register table.
    pub fn registers(&self) -> (slots: &Vec<RegisterSlot>)
        ensures
            slots.len() == REGISTER_COUNT,
            slots.len() == self@.registers.len(),
            forall|i: int| 0 <= i < slots.len() ==> slots[i]@ == self@.registers[i],
    {
        proof {
            use_type_invariant(self);
        }
        &self.registers
    }

    /// Reads one byte and advances by one. Fails with `OutOfBounds` exactly
    /// where nothing is left to read.
    pub fn get_byte(&mut self) -> (read: Result<u8, DisasmError>)
        ensures
            old(self)@.wf(),
            match read {
                Ok(byte) => old(self)@.fits(1) && byte == old(self)@.at(0) && final(self)@ == old(
                    self,
                )@.advance(1),
                Err(e) => !old(self)@.fits(1) && e == DisasmError::OutOfBounds && final(self)@
                    == old(self)@.exhausted(),
            },
    {
        proof {
            use_type_invariant(&*self);
        }
        if self.ptr < self.bytearray.len() {
            let byte = self.bytearray[self.ptr];
            self.ptr += 1;
            Ok(byte)
        } else {
            Err(DisasmError::OutOfBounds)
        }
    }

    /// Reads a big-endian 16-bit word, `(b0 << 8) | b1`, and advances by two.
    /// Where fewer than two bytes are left it consumes them and fails with
    /// `OutOfBounds`.
    pub fn get_pointer_byte(&mut self) -> (read: Result<u32, DisasmError>)
        ensures
            old(self)@.wf(),
            match read {
                Ok(word) => old(self)@.fits(2) && word == old(self)@.word16(0) && final(self)@
                    == old(self)@.advance(2),
                Err(e) => !old(self)@.fits(2) && e == DisasmError::OutOfBounds && final(self)@
                    == old(self)@.exhausted(),
            },
    {
        let high = self.get_byte()?;
        let low = self.get_byte()?;
        Ok(((high as u32) << 8) | (low as u32))
    }

    /// Reads a big-endian 32-bit word,
    /// `(b0 << 24) | (b1 << 16) | (b2 << 8) | b3`, and advances by four. Where
    /// fewer than four bytes are left it consumes them and fails with
    /// `OutOfBounds`.
    pub fn get_int24(&mut self) -> (read: Result<u32, DisasmError>)
        ensures
            old(self)@.wf(),
            match read {
                Ok(word) => old(self)@.fits(4) && word == old(self)@.word32(0) && final(self)@
                    == old(self)@.advance(4),
                Err(e) => !old(self)@.fits(4) && e == DisasmError::OutOfBounds && final(self)@
                    == old(self)@.exhausted(),
            },
    {
        let b0 = self.get_byte()?;
        let b1 = self.get_byte()?;
        let b2 = self.get_byte()?;
        let b3 = self.get_byte()?;
        Ok(((b0 as u32) << 24) | ((b1 as u32) << 16) | ((b2 as u32) << 8) | (b3 as u32))
    }

    /// Reads a string constant: a 16-bit length `n`, then `n` bytes, each
    /// XORed with the mask and taken as one character. Advances by `2 + n`.
    /// Where the length or the `n` bytes do not fit it consumes what is left
    /// and fails with `OutOfBounds`.
    pub fn decode_value(&mut self) -> (read: Result<String, DisasmError>)
        ensures
            old(self)@.wf(),
            match read {
                Ok(text) => old(self)@.fits(2 + old(self)@.word16(0)) && text@ == old(
                    self,
                )@.string_at(0) && final(self)@ == old(self)@.advance(
                    (2 + old(self)@.word16(0)) as nat,
                ),
                Err(e) => !old(self)@.fits(2 + old(self)@.word16(0)) && e
                    == DisasmError::OutOfBounds && final(self)@ == old(self)@.exhausted(),
            },
    {
        let string_len = self.get_pointer_byte()?;
        let mut string = String::new();
        let mut read: u32 = 0;
        while read < string_len
            invariant
                read <= string_len,
                string_len == old(self)@.word16(0),
                old(self)@.fits(2),
                self@ == old(self)@.advance((2 + read) as nat),
                old(self)@.fits(2 + read),
                string@ == old(self)@.string_at(0).take(read as int),
            decreases string_len - read,
        {
            let byte = self.get_byte()?;
            push_char(&mut string, (byte ^ STRING_MASK) as char);
            proof {
                assert(string@ =~= old(self)@.string_at(0).take(read + 1));
            }
            read += 1;
        }
        proof {
            assert(string@ =~= old(self)@.string_at(0));
        }
        Ok(string)
    }

    /// Reads the eight bytes of a double and advances by eight. Where fewer
    /// than eight bytes are left it consumes them and fails with
    /// `OutOfBounds`.
    pub fn read_double(&mut self) -> (read: Result<DecodedDouble, DisasmError>)
        ensures
            old(self)@.wf(),
            match read {
                Ok(value) => old(self)@.fits(8) && value == spec_decode_double(
                    old(self)@.span(0, 8),
                ) && value.wf() && final(self)@ == old(self)@.advance(8),
                Err(e) => !old(self)@.fits(8) && e == DisasmError::OutOfBounds && final(self)@
                    == old(self)@.exhausted(),
            },
    {
        proof {
            use_type_invariant(&*self);
        }
        if self.bytearray.len() - self.ptr >= 8 {
            let value = DecodedDouble::decode(&self.bytearray, self.ptr);
            self.ptr += 8;
            Ok(value)
        } else {
            self.ptr = self.bytearray.len();
            Err(DisasmError::OutOfBounds)
        }
    }

    /// The display text of register `index`: its constant text, or `reg`
    /// followed by the index while the register is unbound.
    pub fn resolve(&self, index: u8) -> (text: String)
        ensures
            self@.wf(),
            text@ == self@.resolve(index),
    {
        proof {
            use_type_invariant(self);
        }
        match &self.registers[index as usize] {
            RegisterSlot::Constant(text) => text.clone(),
            RegisterSlot::Unbound => {
                let mut text = String::new();
                push_register(&mut text, index);
                proof {
                    assert(text@ =~= spec_register(index));
                }
                text
            },
        }
    }

    /// Binds register `index` to the constant `text`.
    pub fn define(&mut self, index: u8, text: String)
        ensures
            old(self)@.wf(),
            final(self)@ == old(self)@.define(index, text@),
    {
        proof {
            use_type_invariant(&*self);
        }
        self.registers[index as usize] = RegisterSlot::Constant(text);
        proof {
            assert(self@.registers =~= old(self)@.registers.update(index as int, Some(text@)));
        }
    }

    /// Appends `line` to the trace.
    pub fn record(&mut self, line: String)
        ensures
            old(self)@.wf(),
            final(self)@ == old(self)@.record(line@),
    {
        proof {
            use_type_invariant(&*self);
        }
        // The trace leaves the decoder while it grows: a push may unwind, and
        // the decoder must not be seen half-changed.
        let mut lines: Vec<String> = Vec::new();
        core::mem::swap(&mut self.trace, &mut lines);
        lines.push(line);
        core::mem::swap(&mut self.trace, &mut lines);
        proof {
            assert(self@.trace =~= old(self)@.trace.push(line@));
        }
    }

    /// One step with the dispatch table at hand.
    fn step_with(&mut self, instructions: &HashMap<u8, OpCodes>) -> (stepped: Result<
        Option<String>,
        DisasmError,
    >)
        requires
            instructions@ == Instructions::dispatch_map(),
        ensures
            old(self)@.wf(),
            final(self)@ == old(self)@.step_state(),
            spec_step_text(stepped) == old(self)@.step_result(),
    {
        proof {
            use_type_invariant(&*self);
        }
        if let Some(failure) = self.failure {
            return Err(failure.error);
        }
        if self.ptr >= self.bytearray.len() {
            return Ok(None);
        }
        let start = self.ptr;
        let offset = self.get_byte()?;

        match instructions.get(&offset) {
            Some(opcode) => {
                assert(Instructions::opcode_kind(offset) == Some(*opcode));
                match Instructions::dispatch(*opcode, self) {
                    Ok(()) => {
                        proof {
                            use_type_invariant(&*self);
                            let line = Instructions::line(*opcode, old(self)@.advance(1));
                            assert(self@.trace.last() == line);
                            assert(self@.trace.len() == self.trace.len());
                        }
                        let last_instr = &self.trace[self.trace.len() - 1];
                        let mut new_instr = String::from_str("0x");
                        push_decimal(&mut new_instr, self.ptr as u64);
                        push_text(&mut new_instr, "    ");
                        push_text(&mut new_instr, last_instr.as_str());
                        Ok(Some(new_instr))
                    },
                    Err(error) => {
                        proof {
                            use_type_invariant(&*self);
                        }
                        self.failure = Some(Failure { error, offset: start });
                        Err(error)
                    },
                }
            },
            None => {
                let error = DisasmError::UnknownOpcode(offset);
                self.failure = Some(Failure { error, offset: start });
                Err(error)
            },
        }
    }

    /// Decodes one instruction: reads the opcode byte, runs the formatter of
    /// the kind it selects and returns the new trace line behind its offset
    /// marker. Returns nothing at the end of the input. Fails with
    /// `UnknownOpcode` where the byte selects no kind, and with `OutOfBounds`
    /// where the operands do not fit. A failure is recorded with the offset
    /// of the instruction and is final: every later step fails with it and
    /// changes nothing.
    pub fn step(&mut self) -> (stepped: Result<Option<String>, DisasmError>)
        ensures
            old(self)@.wf(),
            final(self)@ == old(self)@.step_state(),
            spec_step_text(stepped) == old(self)@.step_result(),
    {
        let instructions = Instructions::get_instructions();
        self.step_with(&instructions)
    }

    /// Runs to the end of the input or to the first failure, and returns the
    /// annotated lines of the whole run. The plain lines are in the trace,
    /// also after a failure; `failure` then tells where the failed
    /// instruction begins. From a failed state it fails again at once.
    pub fn execute(&mut self) -> (ran: Result<Vec<String>, DisasmError>)
        ensures
            old(self)@.wf(),
            final(self)@ == old(self)@.run().state,
            match ran {
                Ok(lines) => old(self)@.run().error is None && spec_lines(lines@) == old(
                    self,
                )@.run().lines,
                Err(e) => old(self)@.run().error == Some(e),
            },
    {
        let instructions = Instructions::get_instructions();
        let mut lines: Vec<String> = Vec::new();
        proof {
            use_type_invariant(&*self);
            assert(spec_lines(lines@) + self@.run().lines =~= old(self)@.run().lines);
        }
        loop
            invariant
                instructions@ == Instructions::dispatch_map(),
                old(self)@.wf(),
                self@.wf(),
                self@.bytes == old(self)@.bytes,
                self@.run().state == old(self)@.run().state,
                self@.run().error == old(self)@.run().error,
                spec_lines(lines@) + self@.run().lines == old(self)@.run().lines,
            ensures
                self@ == old(self)@.run().state,
                old(self)@.run().error is None,
                spec_lines(lines@) == old(self)@.run().lines,
            decreases self@.bytes.len() - self@.offset,
        {
            let ghost before = self@;
            let ghost collected = spec_lines(lines@);
            match self.step_with(&instructions)? {
                Some(line) => {
                    lines.push(line);
                    proof {
                        assert(spec_lines(lines@) =~= collected.push(line@));
                        assert(collected.push(line@) + self@.run().lines =~= collected + (seq![
                            line@,
                        ] + self@.run().lines));
                    }
                },
                None => {
                    proof {
                        assert(collected + Seq::<Seq<char>>::empty() =~= collected);
                    }
                    break ;
                },
            }
        }
        Ok(lines)
    }
}

} // verus!
