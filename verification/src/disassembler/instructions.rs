//! The dispatch table and one formatter for each instruction kind.
//!
//! A formatter starts right after the opcode byte. It reads the operand
//! fields of its kind in their fixed order, renders one trace line and
//! records it. The model of all formatters is `Instructions::width` (the
//! operand layouts), `Instructions::line` (the line formats) and
//! `Instructions::state_after`.

use std::collections::HashMap;
use vstd::prelude::*;
use vstd::string::*;
use crate::disassembler::disassembler::{Disassembler, DisassemblerView};
use crate::disassembler::double::{spec_decode_double, DecodedDouble};
use crate::disassembler::error::DisasmError;
use crate::disassembler::opcodes::OpCodes;
use crate::disassembler::text::{
    push_decimal, push_register, push_text, spec_decimal, spec_register, spec_register_list,
};

verus! {

/// The opcode byte of `load-double`.
pub const LOAD_DOUBLE_OPCODE: u8 = 51;

/// The instruction set: its dispatch table and its formatters.
#[derive(Debug)]
pub struct Instructions;

impl Instructions {
    /// The instruction kind that an opcode byte selects, if any. Two pairs
    /// of bytes share a kind: 20 and 112, 247 and 214.
    pub open spec fn opcode_kind(opcode: u8) -> Option<OpCodes> {
        if opcode == 124 {
            Some(OpCodes::InitMemory)
        }         else if opcode == 23 {
            Some(OpCodes::NewValue)
        }         else if opcode == 251 {
            Some(OpCodes::GetProperty)
        }         else if opcode == 215 {
            Some(OpCodes::CallFunction)
        }         else if opcode == 6 {
            Some(OpCodes::Mul)
        }         else if opcode == 241 {
            Some(OpCodes::MovImm24)
        }         else if opcode == 90 {
            Some(OpCodes::CallApply)
        }         else if opcode == 55 {
            Some(OpCodes::Div)
        }         else if opcode == 65 {
            Some(OpCodes::Or)
        }         else if opcode == 230 {
            Some(OpCodes::Sub)
        }         else if opcode == 88 {
            Some(OpCodes::PushArgs)
        }         else if opcode == 181 {
            Some(OpCodes::LoadImm24)
        }         else if opcode == 49 {
            Some(OpCodes::JumpFrame)
        }         else if opcode == 171 {
            Some(OpCodes::NewFunction)
        }         else if opcode == 20 {
            Some(OpCodes::LessThan)
        }         else if opcode == 39 {
            Some(OpCodes::JumpIfFalse)
        }         else if opcode == 112 {
            Some(OpCodes::LessThan)
        }         else if opcode == 99 {
            Some(OpCodes::SetProperty)
        }         else if opcode == 243 {
            Some(OpCodes::Add)
        }         else if opcode == 93 {
            Some(OpCodes::Jump)
        }         else if opcode == 166 {
            Some(OpCodes::Halt)
        }         else if opcode == 53 {
            Some(OpCodes::Shl)
        }         else if opcode == 17 {
            Some(OpCodes::Ret)
        }         else if opcode == 78 {
            Some(OpCodes::Equal)
        }         else if opcode == 117 {
            Some(OpCodes::Xor)
        }         else if opcode == 51 {
            Some(OpCodes::LoadDouble)
        }         else if opcode == 40 {
            Some(OpCodes::Ushr)
        }         else if opcode == 149 {
            Some(OpCodes::Shr)
        }         else if opcode == 37 {
            Some(OpCodes::And)
        }         else if opcode == 156 {
            Some(OpCodes::Mod)
        }         else if opcode == 247 {
            Some(OpCodes::Lte)
        }         else if opcode == 214 {
            Some(OpCodes::Lte)
        }         else if opcode == 22 {
            Some(OpCodes::NotEqual)
        }         else if opcode == 83 {
            Some(OpCodes::JumpIfTrue)
        }         else if opcode == 115 {
            Some(OpCodes::TryCatch)
        }         else if opcode == 161 {
            Some(OpCodes::StrictEqual)
        }         else if opcode == 220 {
            Some(OpCodes::StrictNotEqual)
        }         else if opcode == 5 {
            Some(OpCodes::Throw)
        } else {
            None
        }
    }

    /// The dispatch table as a map: every opcode byte that selects a kind,
    /// with that kind.
    pub open spec fn dispatch_map() -> Map<u8, OpCodes> {
        Map::new(
            |opcode: u8| Self::opcode_kind(opcode) is Some,
            |opcode: u8| Self::opcode_kind(opcode).unwrap(),
        )
    }

    /// The number of operand bytes of an instruction of `kind` whose
    /// operands start at the read position of `v`. A count or a length
    /// enters once it can be read.
    pub open spec fn width(kind: OpCodes, v: DisassemblerView) -> nat {
        match kind {
            OpCodes::InitMemory | OpCodes::LoadImm24 => 2,
            OpCodes::NewValue => if v.fits(3) {
                3 + v.word16(1) as nat
            } else {
                3
            },
            OpCodes::GetProperty | OpCodes::SetProperty => 3,
            OpCodes::CallFunction => if v.fits(3) {
                3 + v.at(2) as nat
            } else {
                3
            },
            OpCodes::CallApply => if v.fits(4) {
                4 + v.at(3) as nat
            } else {
                4
            },
            OpCodes::PushArgs | OpCodes::Ret => if v.fits(2) {
                2 + v.at(1) as nat
            } else {
                2
            },
            OpCodes::JumpFrame | OpCodes::NewFunction => if v.fits(6) {
                6 + v.at(5) as nat
            } else {
                6
            },
            OpCodes::MovImm24 | OpCodes::JumpIfFalse | OpCodes::JumpIfTrue => 5,
            OpCodes::Jump => 4,
            OpCodes::Halt => 0,
            OpCodes::LoadDouble => 9,
            OpCodes::TryCatch => 13,
            OpCodes::Throw => 1,
            OpCodes::Mul
            | OpCodes::Div
            | OpCodes::Or
            | OpCodes::Sub
            | OpCodes::LessThan
            | OpCodes::Add
            | OpCodes::Shl
            | OpCodes::Equal
            | OpCodes::Xor
            | OpCodes::Ushr
            | OpCodes::Shr
            | OpCodes::And
            | OpCodes::Mod
            | OpCodes::Lte
            | OpCodes::NotEqual
            | OpCodes::StrictEqual
            | OpCodes::StrictNotEqual => 3,
        }
    }

    /// The trace line of an instruction of `kind` whose operands start at
    /// the read position of `v` and fit.
    pub open spec fn line(kind: OpCodes, v: DisassemblerView) -> Seq<char> {
        let name = kind.mnemonic();
        match kind {
            OpCodes::InitMemory | OpCodes::LoadImm24 => name + " "@ + spec_decimal(v.at(1) as nat)
                + " -> "@ + spec_register(v.at(0)),
            OpCodes::NewValue => name + " '"@ + v.string_at(1) + "'"@ + " -> "@ + spec_register(
                v.at(0),
            ),
            OpCodes::GetProperty => name + " "@ + v.resolve(v.at(1)) + "["@ + v.resolve(v.at(2))
                + "]"@ + " -> "@ + spec_register(v.at(0)),
            OpCodes::CallFunction => name + " "@ + v.resolve(v.at(1)) + "("@ + spec_register_list(
                v.span(3, v.at(2) as int),
            ) + ")"@ + " -> "@ + spec_register(v.at(0)),
            OpCodes::MovImm24 => name + " "@ + spec_decimal(v.word32(1) as nat) + " -> "@
                + spec_register(v.at(0)),
            OpCodes::CallApply => name + " "@ + v.resolve(v.at(1)) + ".apply("@ + spec_register(
                v.at(2),
            ) + ", ["@ + spec_register_list(v.span(4, v.at(3) as int)) + "])"@ + " -> "@
                + spec_register(v.at(0)),
            OpCodes::PushArgs => name + " ["@ + spec_register_list(v.span(2, v.at(1) as int))
                + "]"@ + " -> "@ + spec_register(v.at(0)),
            OpCodes::JumpFrame => name + " entry("@ + spec_decimal(v.word32(0) as nat) + "), "@
                + spec_decimal(v.at(4) as nat) + ", params("@ + spec_register_list(
                v.span(6, v.at(5) as int),
            ) + ")"@,
            OpCodes::NewFunction => name + " entry("@ + spec_decimal(v.word32(1) as nat)
                + "), args("@ + spec_register_list(v.span(6, v.at(5) as int)) + ")"@ + " -> "@
                + spec_register(v.at(0)),
            OpCodes::JumpIfFalse | OpCodes::JumpIfTrue => name + " "@ + spec_register(v.at(0))
                + ", entry("@ + spec_decimal(v.word32(1) as nat) + ")"@,
            OpCodes::SetProperty => name + " "@ + v.resolve(v.at(0)) + "["@ + v.resolve(v.at(1))
                + "] = "@ + v.resolve(v.at(2)),
            OpCodes::Jump => name + " "@ + spec_decimal(v.word32(0) as nat),
            OpCodes::Halt => name,
            OpCodes::Ret => name + " "@ + spec_decimal(v.at(0) as nat) + " ["@
                + spec_register_list(v.span(2, v.at(1) as int)) + "]"@,
            OpCodes::LoadDouble => name + " "@ + spec_decode_double(v.span(1, 8)).spec_text()
                + " -> "@ + spec_register(v.at(0)),
            OpCodes::TryCatch => name + " ["@ + spec_decimal(v.word32(1) as nat) + ", "@
                + spec_decimal(v.word32(5) as nat) + ", "@ + spec_decimal(v.word32(9) as nat)
                + "]"@ + " -> "@ + spec_register(v.at(0)),
            OpCodes::Throw => name + " "@ + spec_decimal(v.at(0) as nat),
            OpCodes::Mul
            | OpCodes::Div
            | OpCodes::Or
            | OpCodes::Sub
            | OpCodes::LessThan
            | OpCodes::Add
            | OpCodes::Shl
            | OpCodes::Equal
            | OpCodes::Xor
            | OpCodes::Ushr
            | OpCodes::Shr
            | OpCodes::And
            | OpCodes::Mod
            | OpCodes::Lte
            | OpCodes::NotEqual
            | OpCodes::StrictEqual
            | OpCodes::StrictNotEqual => name + " "@ + spec_register(v.at(1)) + " "@ + kind.spec_symbol() + " "@
                + spec_register(v.at(2)) + " -> "@ + spec_register(v.at(0)),
        }
    }

    /// Whether a formatter of `kind` succeeds from `v`: `OutOfBounds` exactly
    /// where the operands do not fit.
    pub open spec fn outcome(kind: OpCodes, v: DisassemblerView) -> Result<(), DisasmError> {
        if v.fits(Self::width(kind, v) as int) {
            Ok(())
        } else {
            Err(DisasmError::OutOfBounds)
        }
    }

    /// The state that a formatter of `kind` leaves when started from `v`.
    /// Where the operands fit they are consumed and the line is recorded;
    /// the constant definition also binds its destination register. Where
    /// they do not fit, the rest of the input is consumed and nothing else
    /// changes.
    pub open spec fn state_after(kind: OpCodes, v: DisassemblerView) -> DisassemblerView {
        if !v.fits(Self::width(kind, v) as int) {
            v.exhausted()
        } else if kind == OpCodes::NewValue {
            v.advance(Self::width(kind, v)).record(Self::line(kind, v)).define(
                v.at(0),
                v.string_at(1),
            )
        } else {
            v.advance(Self::width(kind, v)).record(Self::line(kind, v))
        }
    }

    /// The double that the instruction at offset `at` of `bytes` loads:
    /// present where the byte at `at` selects `load-double` and its operands
    /// fit.
    pub open spec fn spec_double_operand(bytes: Seq<u8>, at: int) -> Option<DecodedDouble> {
        if 0 <= at && at + 10 <= bytes.len() && Self::opcode_kind(bytes[at]) == Some(
            OpCodes::LoadDouble,
        ) {
            Some(spec_decode_double(bytes.subrange(at + 2, at + 10)))
        } else {
            None
        }
    }

    /// The double that the instruction at offset `at` of `bytes` loads, for
    /// a caller that wants the number itself and not its text.
    pub fn double_operand(bytes: &Vec<u8>, at: usize) -> (value: Option<DecodedDouble>)
        ensures
            value == Self::spec_double_operand(bytes@, at as int),
    {
        if at < bytes.len() && bytes.len() - at >= 10 && bytes[at] == LOAD_DOUBLE_OPCODE {
            Some(DecodedDouble::decode(bytes, at + 2))
        } else {
            None
        }
    }

    /// The dispatch table: each opcode byte of the instruction set with the
    /// kind it selects.
    pub fn get_instructions() -> (instructions: HashMap<u8, OpCodes>)
        ensures
            instructions@ == Self::dispatch_map(),
    {
        let mut instructions: HashMap<u8, OpCodes> = HashMap::new();

        instructions.insert(124, OpCodes::InitMemory);
        instructions.insert(23, OpCodes::NewValue);
        instructions.insert(251, OpCodes::GetProperty);
        instructions.insert(215, OpCodes::CallFunction);
        instructions.insert(6, OpCodes::Mul);
        instructions.insert(241, OpCodes::MovImm24);
        instructions.insert(90, OpCodes::CallApply);
        instructions.insert(55, OpCodes::Div);
        instructions.insert(65, OpCodes::Or);
        instructions.insert(230, OpCodes::Sub);
        instructions.insert(88, OpCodes::PushArgs);
        instructions.insert(181, OpCodes::LoadImm24);
        instructions.insert(49, OpCodes::JumpFrame);
        instructions.insert(171, OpCodes::NewFunction);
        instructions.insert(20, OpCodes::LessThan);
        instructions.insert(39, OpCodes::JumpIfFalse);
        instructions.insert(112, OpCodes::LessThan);
        instructions.insert(99, OpCodes::SetProperty);
        instructions.insert(243, OpCodes::Add);
        instructions.insert(93, OpCodes::Jump);
        instructions.insert(166, OpCodes::Halt);
        instructions.insert(53, OpCodes::Shl);
        instructions.insert(17, OpCodes::Ret);
        instructions.insert(78, OpCodes::Equal);
        instructions.insert(117, OpCodes::Xor);
        instructions.insert(51, OpCodes::LoadDouble);
        instructions.insert(40, OpCodes::Ushr);
        instructions.insert(149, OpCodes::Shr);
        instructions.insert(37, OpCodes::And);
        instructions.insert(156, OpCodes::Mod);
        instructions.insert(247, OpCodes::Lte);
        instructions.insert(214, OpCodes::Lte);
        instructions.insert(22, OpCodes::NotEqual);
        instructions.insert(83, OpCodes::JumpIfTrue);
        instructions.insert(115, OpCodes::TryCatch);
        instructions.insert(161, OpCodes::StrictEqual);
        instructions.insert(220, OpCodes::StrictNotEqual);
        instructions.insert(5, OpCodes::Throw);

        proof {
            assert(instructions@ =~= Self::dispatch_map());
        }
        instructions
    }

    /// Runs the formatter of `kind`.
    pub fn dispatch(kind: OpCodes, disasm: &mut Disassembler) -> (done: Result<(), DisasmError>)
        ensures
            done == Self::outcome(kind, old(disasm)@),
            final(disasm)@ == Self::state_after(kind, old(disasm)@),
    {
        match kind {
            OpCodes::InitMemory => Self::init_memory(disasm),
            OpCodes::NewValue => Self::new_value(disasm),
            OpCodes::GetProperty => Self::get_property(disasm),
            OpCodes::CallFunction => Self::call_function(disasm),
            OpCodes::Mul => Self::mul_op(disasm),
            OpCodes::MovImm24 => Self::mov_imm24(disasm),
            OpCodes::CallApply => Self::call_apply(disasm),
            OpCodes::Div => Self::div_op(disasm),
            OpCodes::Or => Self::or_op(disasm),
            OpCodes::Sub => Self::sub_op(disasm),
            OpCodes::PushArgs => Self::push_args(disasm),
            OpCodes::LoadImm24 => Self::load_imm24(disasm),
            OpCodes::JumpFrame => Self::jump_frame(disasm),
            OpCodes::NewFunction => Self::new_function(disasm),
            OpCodes::LessThan => Self::less_than(disasm),
            OpCodes::JumpIfFalse => Self::jump_if_false(disasm),
            OpCodes::SetProperty => Self::set_property(disasm),
            OpCodes::Add => Self::add_op(disasm),
            OpCodes::Jump => Self::jump(disasm),
            OpCodes::Halt => Self::halt(disasm),
            OpCodes::Shl => Self::shl_op(disasm),
            OpCodes::Ret => Self::function_ret(disasm),
            OpCodes::Equal => Self::equal_op(disasm),
            OpCodes::Xor => Self::xor_op(disasm),
            OpCodes::LoadDouble => Self::load_double(disasm),
            OpCodes::Ushr => Self::ushr_op(disasm),
            OpCodes::Shr => Self::shr_op(disasm),
            OpCodes::And => Self::and_op(disasm),
            OpCodes::Mod => Self::mod_op(disasm),
            OpCodes::Lte => Self::lte_op(disasm),
            OpCodes::NotEqual => Self::notequal_op(disasm),
            OpCodes::JumpIfTrue => Self::jump_if_true(disasm),
            OpCodes::TryCatch => Self::try_catch(disasm),
            OpCodes::StrictEqual => Self::strict_equal_op(disasm),
            OpCodes::StrictNotEqual => Self::strict_notequal_op(disasm),
            OpCodes::Throw => Self::throw_op(disasm),
        }
    }

    /// Appends ` -> ` and the reference to the destination register.
    fn push_arrow(line: &mut String, dest: u8)
        ensures
            final(line)@ == old(line)@ + " -> "@ + spec_register(dest),
    {
        push_text(line, " -> ");
        push_register(line, dest);
    }

    /// Reads `count` register bytes and renders their references, separated
    /// by commas.
    fn register_list(disasm: &mut Disassembler, count: u8) -> (read: Result<String, DisasmError>)
        requires
            old(disasm)@.wf(),
        ensures
            match read {
                Ok(text) => old(disasm)@.fits(count as int) && text@ == spec_register_list(
                    old(disasm)@.span(0, count as int),
                ) && final(disasm)@ == old(disasm)@.advance(count as nat),
                Err(e) => !old(disasm)@.fits(count as int) && e == DisasmError::OutOfBounds
                    && final(disasm)@ == old(disasm)@.exhausted(),
            },
    {
        let mut text = String::new();
        let mut read: u8 = 0;
        proof {
            assert(old(disasm)@.span(0, 0) =~= Seq::<u8>::empty());
        }
        while read < count
            invariant
                read <= count,
                old(disasm)@.fits(read as int),
                disasm@ == old(disasm)@.advance(read as nat),
                text@ == spec_register_list(old(disasm)@.span(0, read as int)),
            decreases count - read,
        {
            let register = disasm.get_byte()?;
            if read > 0 {
                push_text(&mut text, ",");
            }
            push_register(&mut text, register);
            proof {
                let seen = old(disasm)@.span(0, read + 1);
                assert(seen.drop_last() =~= old(disasm)@.span(0, read as int));
                assert(seen.last() == register);
                assert(text@ =~= spec_register_list(seen));
            }
            read += 1;
        }
        Ok(text)
    }

    /// A two-operand operator: dest-reg, left-reg, right-reg.
    fn binary_op(disasm: &mut Disassembler, kind: OpCodes) -> (done: Result<(), DisasmError>)
        requires
            kind.spec_is_binary(),
        ensures
            done == Self::outcome(kind, old(disasm)@),
            final(disasm)@ == Self::state_after(kind, old(disasm)@),
    {
        let reg = disasm.get_byte()?;
        let left_reg = disasm.get_byte()?;
        let right_reg = disasm.get_byte()?;

        let mut line = String::from_str(kind.as_str());
        push_text(&mut line, " ");
        push_register(&mut line, left_reg);
        push_text(&mut line, " ");
        push_text(&mut line, kind.symbol());
        push_text(&mut line, " ");
        push_register(&mut line, right_reg);
        Self::push_arrow(&mut line, reg);
        disasm.record(line);
        Ok(())
    }

    /// A conditional jump: cond-reg, target.
    fn conditional_jump(disasm: &mut Disassembler, kind: OpCodes) -> (done: Result<
        (),
        DisasmError,
    >)
        requires
            kind == OpCodes::JumpIfFalse || kind == OpCodes::JumpIfTrue,
        ensures
            done == Self::outcome(kind, old(disasm)@),
            final(disasm)@ == Self::state_after(kind, old(disasm)@),
    {
        let reg = disasm.get_byte()?;
        let ptr = disasm.get_int24()?;

        let mut line = String::from_str(kind.as_str());
        push_text(&mut line, " ");
        push_register(&mut line, reg);
        push_text(&mut line, ", entry(");
        push_decimal(&mut line, ptr as u64);
        push_text(&mut line, ")");
        disasm.record(line);
        Ok(())
    }

    /// A one-byte immediate: dest-reg, imm.
    fn byte_immediate(disasm: &mut Disassembler, kind: OpCodes) -> (done: Result<(), DisasmError>)
        requires
            kind == OpCodes::InitMemory || kind == OpCodes::LoadImm24,
        ensures
            done == Self::outcome(kind, old(disasm)@),
            final(disasm)@ == Self::state_after(kind, old(disasm)@),
    {
        let reg = disasm.get_byte()?;
        let value = disasm.get_byte()?;

        let mut line = String::from_str(kind.as_str());
        push_text(&mut line, " ");
        push_decimal(&mut line, value as u64);
        Self::push_arrow(&mut line, reg);
        disasm.record(line);
        Ok(())
    }

    /// `init-memory`: dest-reg, imm (one byte).
    pub fn init_memory(disasm: &mut Disassembler) -> (done: Result<(), DisasmError>)
        ensures
            done == Self::outcome(OpCodes::InitMemory, old(disasm)@),
            final(disasm)@ == Self::state_after(OpCodes::InitMemory, old(disasm)@),
    {
        Self::byte_immediate(disasm, OpCodes::InitMemory)
    }

    /// `define-constant`: dest-reg, string. Binds the destination register
    /// to the decoded text.
    pub fn new_value(disasm: &mut Disassembler) -> (done: Result<(), DisasmError>)
        ensures
            done == Self::outcome(OpCodes::NewValue, old(disasm)@),
            final(disasm)@ == Self::state_after(OpCodes::NewValue, old(disasm)@),
    {
        let reg = disasm.get_byte()?;
        let value = disasm.decode_value()?;

        let mut line = String::from_str(OpCodes::NewValue.as_str());
        push_text(&mut line, " '");
        push_text(&mut line, value.as_str());
        push_text(&mut line, "'");
        Self::push_arrow(&mut line, reg);
        proof {
            let v = old(disasm)@;
            assert(v.advance(1).string_at(0) =~= v.string_at(1));
        }
        disasm.record(line);
        disasm.define(reg, value);
        Ok(())
    }

    /// `get-property`: dest-reg, obj-reg, prop-reg; object and property are
    /// shown resolved.
    pub fn get_property(disasm: &mut Disassembler) -> (done: Result<(), DisasmError>)
        ensures
            done == Self::outcome(OpCodes::GetProperty, old(disasm)@),
            final(disasm)@ == Self::state_after(OpCodes::GetProperty, old(disasm)@),
    {
        let reg = disasm.get_byte()?;
        let obj_reg = disasm.get_byte()?;
        let prop_reg = disasm.get_byte()?;

        let obj = disasm.resolve(obj_reg);
        let prop = disasm.resolve(prop_reg);

        let mut line = String::from_str(OpCodes::GetProperty.as_str());
        push_text(&mut line, " ");
        push_text(&mut line, obj.as_str());
        push_text(&mut line, "[");
        push_text(&mut line, prop.as_str());
        push_text(&mut line, "]");
        Self::push_arrow(&mut line, reg);
        disasm.record(line);
        Ok(())
    }

    /// `call-function`: dest-reg, func-reg, argc, args; the function is
    /// shown resolved.
    pub fn call_function(disasm: &mut Disassembler) -> (done: Result<(), DisasmError>)
        ensures
            done == Self::outcome(OpCodes::CallFunction, old(disasm)@),
            final(disasm)@ == Self::state_after(OpCodes::CallFunction, old(disasm)@),
    {
        let reg = disasm.get_byte()?;
        let func_reg = disasm.get_byte()?;
        let func = disasm.resolve(func_reg);

        let arg_len = disasm.get_byte()?;
        let args = Self::register_list(disasm, arg_len)?;

        let mut line = String::from_str(OpCodes::CallFunction.as_str());
        push_text(&mut line, " ");
        push_text(&mut line, func.as_str());
        push_text(&mut line, "(");
        push_text(&mut line, args.as_str());
        push_text(&mut line, ")");
        Self::push_arrow(&mut line, reg);
        proof {
            let v = old(disasm)@;
            assert(v.advance(3).span(0, arg_len as int) =~= v.span(3, arg_len as int));
        }
        disasm.record(line);
        Ok(())
    }

    /// `mul`: the product of two registers.
    pub fn mul_op(disasm: &mut Disassembler) -> (done: Result<(), DisasmError>)
        ensures
            done == Self::outcome(OpCodes::Mul, old(disasm)@),
            final(disasm)@ == Self::state_after(OpCodes::Mul, old(disasm)@),
    {
        Self::binary_op(disasm, OpCodes::Mul)
    }

    /// `mov-imm`: dest-reg, imm (a 32-bit word).
    pub fn mov_imm24(disasm: &mut Disassembler) -> (done: Result<(), DisasmError>)
        ensures
            done == Self::outcome(OpCodes::MovImm24, old(disasm)@),
            final(disasm)@ == Self::state_after(OpCodes::MovImm24, old(disasm)@),
    {
        let reg = disasm.get_byte()?;
        let val_24 = disasm.get_int24()?;

        let mut line = String::from_str(OpCodes::MovImm24.as_str());
        push_text(&mut line, " ");
        push_decimal(&mut line, val_24 as u64);
        Self::push_arrow(&mut line, reg);
        disasm.record(line);
        Ok(())
    }

    /// `call-apply`: dest-reg, func-reg, this-reg, argc, args; the function
    /// is shown resolved.
    pub fn call_apply(disasm: &mut Disassembler) -> (done: Result<(), DisasmError>)
        ensures
            done == Self::outcome(OpCodes::CallApply, old(disasm)@),
            final(disasm)@ == Self::state_after(OpCodes::CallApply, old(disasm)@),
    {
        let reg = disasm.get_byte()?;
        let func_reg = disasm.get_byte()?;
        let func = disasm.resolve(func_reg);

        let this_reg = disasm.get_byte()?;
        let arg_len = disasm.get_byte()?;
        let args = Self::register_list(disasm, arg_len)?;

        let mut line = String::from_str(OpCodes::CallApply.as_str());
        push_text(&mut line, " ");
        push_text(&mut line, func.as_str());
        push_text(&mut line, ".apply(");
        push_register(&mut line, this_reg);
        push_text(&mut line, ", [");
        push_text(&mut line, args.as_str());
        push_text(&mut line, "])");
        Self::push_arrow(&mut line, reg);
        proof {
            let v = old(disasm)@;
            assert(v.advance(4).span(0, arg_len as int) =~= v.span(4, arg_len as int));
        }
        disasm.record(line);
        Ok(())
    }

    /// `div`: the quotient of two registers.
    pub fn div_op(disasm: &mut Disassembler) -> (done: Result<(), DisasmError>)
        ensures
            done == Self::outcome(OpCodes::Div, old(disasm)@),
            final(disasm)@ == Self::state_after(OpCodes::Div, old(disasm)@),
    {
        Self::binary_op(disasm, OpCodes::Div)
    }

    /// `or`: the bitwise or of two registers.
    pub fn or_op(disasm: &mut Disassembler) -> (done: Result<(), DisasmError>)
        ensures
            done == Self::outcome(OpCodes::Or, old(disasm)@),
            final(disasm)@ == Self::state_after(OpCodes::Or, old(disasm)@),
    {
        Self::binary_op(disasm, OpCodes::Or)
    }

    /// `sub`: the difference of two registers.
    pub fn sub_op(disasm: &mut Disassembler) -> (done: Result<(), DisasmError>)
        ensures
            done == Self::outcome(OpCodes::Sub, old(disasm)@),
            final(disasm)@ == Self::state_after(OpCodes::Sub, old(disasm)@),
    {
        Self::binary_op(disasm, OpCodes::Sub)
    }

    /// `push-args`: dest-reg, argc, args.
    pub fn push_args(disasm: &mut Disassembler) -> (done: Result<(), DisasmError>)
        ensures
            done == Self::outcome(OpCodes::PushArgs, old(disasm)@),
            final(disasm)@ == Self::state_after(OpCodes::PushArgs, old(disasm)@),
    {
        let reg = disasm.get_byte()?;
        let arg_len = disasm.get_byte()?;
        let args = Self::register_list(disasm, arg_len)?;

        let mut line = String::from_str(OpCodes::PushArgs.as_str());
        push_text(&mut line, " [");
        push_text(&mut line, args.as_str());
        push_text(&mut line, "]");
        Self::push_arrow(&mut line, reg);
        proof {
            let v = old(disasm)@;
            assert(v.advance(2).span(0, arg_len as int) =~= v.span(2, arg_len as int));
        }
        disasm.record(line);
        Ok(())
    }

    /// `load-imm`: dest-reg, imm (one byte, unlike `mov-imm`).
    pub fn load_imm24(disasm: &mut Disassembler) -> (done: Result<(), DisasmError>)
        ensures
            done == Self::outcome(OpCodes::LoadImm24, old(disasm)@),
            final(disasm)@ == Self::state_after(OpCodes::LoadImm24, old(disasm)@),
    {
        Self::byte_immediate(disasm, OpCodes::LoadImm24)
    }

    /// `jump-frame`: entry (a 32-bit word), context, paramc, params.
    pub fn jump_frame(disasm: &mut Disassembler) -> (done: Result<(), DisasmError>)
        ensures
            done == Self::outcome(OpCodes::JumpFrame, old(disasm)@),
            final(disasm)@ == Self::state_after(OpCodes::JumpFrame, old(disasm)@),
    {
        let ptr = disasm.get_int24()?;
        let context = disasm.get_byte()?;
        let params_count = disasm.get_byte()?;
        let params = Self::register_list(disasm, params_count)?;

        let mut line = String::from_str(OpCodes::JumpFrame.as_str());
        push_text(&mut line, " entry(");
        push_decimal(&mut line, ptr as u64);
        push_text(&mut line, "), ");
        push_decimal(&mut line, context as u64);
        push_text(&mut line, ", params(");
        push_text(&mut line, params.as_str());
        push_text(&mut line, ")");
        proof {
            let v = old(disasm)@;
            assert(v.advance(6).span(0, params_count as int) =~= v.span(6, params_count as int));
        }
        disasm.record(line);
        Ok(())
    }

    /// `new-function`: dest-reg, entry (a 32-bit word), argc, args.
    pub fn new_function(disasm: &mut Disassembler) -> (done: Result<(), DisasmError>)
        ensures
            done == Self::outcome(OpCodes::NewFunction, old(disasm)@),
            final(disasm)@ == Self::state_after(OpCodes::NewFunction, old(disasm)@),
    {
        let reg = disasm.get_byte()?;
        let func_entry = disasm.get_int24()?;
        let args_len = disasm.get_byte()?;
        let args = Self::register_list(disasm, args_len)?;

        let mut line = String::from_str(OpCodes::NewFunction.as_str());
        push_text(&mut line, " entry(");
        push_decimal(&mut line, func_entry as u64);
        push_text(&mut line, "), args(");
        push_text(&mut line, args.as_str());
        push_text(&mut line, ")");
        Self::push_arrow(&mut line, reg);
        proof {
            let v = old(disasm)@;
            assert(v.advance(6).span(0, args_len as int) =~= v.span(6, args_len as int));
        }
        disasm.record(line);
        Ok(())
    }

    /// `less-than`: the less-than comparison of two registers.
    pub fn less_than(disasm: &mut Disassembler) -> (done: Result<(), DisasmError>)
        ensures
            done == Self::outcome(OpCodes::LessThan, old(disasm)@),
            final(disasm)@ == Self::state_after(OpCodes::LessThan, old(disasm)@),
    {
        Self::binary_op(disasm, OpCodes::LessThan)
    }

    /// `jump-if-false`: cond-reg, target (a 32-bit word).
    pub fn jump_if_false(disasm: &mut Disassembler) -> (done: Result<(), DisasmError>)
        ensures
            done == Self::outcome(OpCodes::JumpIfFalse, old(disasm)@),
            final(disasm)@ == Self::state_after(OpCodes::JumpIfFalse, old(disasm)@),
    {
        Self::conditional_jump(disasm, OpCodes::JumpIfFalse)
    }

    /// `set-property`: obj-reg, prop-reg, val-reg; all three are shown
    /// resolved.
    pub fn set_property(disasm: &mut Disassembler) -> (done: Result<(), DisasmError>)
        ensures
            done == Self::outcome(OpCodes::SetProperty, old(disasm)@),
            final(disasm)@ == Self::state_after(OpCodes::SetProperty, old(disasm)@),
    {
        let obj_reg = disasm.get_byte()?;
        let prop_reg = disasm.get_byte()?;
        let val_reg = disasm.get_byte()?;

        let val = disasm.resolve(val_reg);
        let prop = disasm.resolve(prop_reg);
        let obj = disasm.resolve(obj_reg);

        let mut line = String::from_str(OpCodes::SetProperty.as_str());
        push_text(&mut line, " ");
        push_text(&mut line, obj.as_str());
        push_text(&mut line, "[");
        push_text(&mut line, prop.as_str());
        push_text(&mut line, "] = ");
        push_text(&mut line, val.as_str());
        disasm.record(line);
        Ok(())
    }

    /// `add`: the sum of two registers.
    pub fn add_op(disasm: &mut Disassembler) -> (done: Result<(), DisasmError>)
        ensures
            done == Self::outcome(OpCodes::Add, old(disasm)@),
            final(disasm)@ == Self::state_after(OpCodes::Add, old(disasm)@),
    {
        Self::binary_op(disasm, OpCodes::Add)
    }

    /// `jump`: target (a 32-bit word).
    pub fn jump(disasm: &mut Disassembler) -> (done: Result<(), DisasmError>)
        ensures
            done == Self::outcome(OpCodes::Jump, old(disasm)@),
            final(disasm)@ == Self::state_after(OpCodes::Jump, old(disasm)@),
    {
        let ptr = disasm.get_int24()?;

        let mut line = String::from_str(OpCodes::Jump.as_str());
        push_text(&mut line, " ");
        push_decimal(&mut line, ptr as u64);
        disasm.record(line);
        Ok(())
    }

    /// `halt`: no operands. It only leaves its line; the run goes on.
    pub fn halt(disasm: &mut Disassembler) -> (done: Result<(), DisasmError>)
        ensures
            done == Self::outcome(OpCodes::Halt, old(disasm)@),
            final(disasm)@ == Self::state_after(OpCodes::Halt, old(disasm)@),
    {
        disasm.record(String::from_str(OpCodes::Halt.as_str()));
        Ok(())
    }

    /// `shl`: the left shift of two registers.
    pub fn shl_op(disasm: &mut Disassembler) -> (done: Result<(), DisasmError>)
        ensures
            done == Self::outcome(OpCodes::Shl, old(disasm)@),
            final(disasm)@ == Self::state_after(OpCodes::Shl, old(disasm)@),
    {
        Self::binary_op(disasm, OpCodes::Shl)
    }

    /// `function-return`: dest-reg, count, regs.
    pub fn function_ret(disasm: &mut Disassembler) -> (done: Result<(), DisasmError>)
        ensures
            done == Self::outcome(OpCodes::Ret, old(disasm)@),
            final(disasm)@ == Self::state_after(OpCodes::Ret, old(disasm)@),
    {
        let reg = disasm.get_byte()?;
        let count = disasm.get_byte()?;
        let list = Self::register_list(disasm, count)?;

        let mut line = String::from_str(OpCodes::Ret.as_str());
        push_text(&mut line, " ");
        push_decimal(&mut line, reg as u64);
        push_text(&mut line, " [");
        push_text(&mut line, list.as_str());
        push_text(&mut line, "]");
        proof {
            let v = old(disasm)@;
            assert(v.advance(2).span(0, count as int) =~= v.span(2, count as int));
        }
        disasm.record(line);
        Ok(())
    }

    /// `equal`: the equality comparison of two registers.
    pub fn equal_op(disasm: &mut Disassembler) -> (done: Result<(), DisasmError>)
        ensures
            done == Self::outcome(OpCodes::Equal, old(disasm)@),
            final(disasm)@ == Self::state_after(OpCodes::Equal, old(disasm)@),
    {
        Self::binary_op(disasm, OpCodes::Equal)
    }

    /// `xor`: the bitwise exclusive or of two registers.
    pub fn xor_op(disasm: &mut Disassembler) -> (done: Result<(), DisasmError>)
        ensures
            done == Self::outcome(OpCodes::Xor, old(disasm)@),
            final(disasm)@ == Self::state_after(OpCodes::Xor, old(disasm)@),
    {
        Self::binary_op(disasm, OpCodes::Xor)
    }

    /// `load-double`: dest-reg, value (eight bytes). The value is shown
    /// exactly, in hexadecimal floating-point notation.
    pub fn load_double(disasm: &mut Disassembler) -> (done: Result<(), DisasmError>)
        ensures
            done == Self::outcome(OpCodes::LoadDouble, old(disasm)@),
            final(disasm)@ == Self::state_after(OpCodes::LoadDouble, old(disasm)@),
    {
        let reg = disasm.get_byte()?;
        let val = disasm.read_double()?;

        let mut line = String::from_str(OpCodes::LoadDouble.as_str());
        push_text(&mut line, " ");
        push_text(&mut line, val.text().as_str());
        Self::push_arrow(&mut line, reg);
        proof {
            let v = old(disasm)@;
            assert(v.advance(1).span(0, 8) =~= v.span(1, 8));
        }
        disasm.record(line);
        Ok(())
    }

    /// `ushr`: the unsigned right shift of two registers.
    pub fn ushr_op(disasm: &mut Disassembler) -> (done: Result<(), DisasmError>)
        ensures
            done == Self::outcome(OpCodes::Ushr, old(disasm)@),
            final(disasm)@ == Self::state_after(OpCodes::Ushr, old(disasm)@),
    {
        Self::binary_op(disasm, OpCodes::Ushr)
    }

    /// `shr`: the right shift of two registers.
    pub fn shr_op(disasm: &mut Disassembler) -> (done: Result<(), DisasmError>)
        ensures
            done == Self::outcome(OpCodes::Shr, old(disasm)@),
            final(disasm)@ == Self::state_after(OpCodes::Shr, old(disasm)@),
    {
        Self::binary_op(disasm, OpCodes::Shr)
    }

    /// `and`: the bitwise and of two registers.
    pub fn and_op(disasm: &mut Disassembler) -> (done: Result<(), DisasmError>)
        ensures
            done == Self::outcome(OpCodes::And, old(disasm)@),
            final(disasm)@ == Self::state_after(OpCodes::And, old(disasm)@),
    {
        Self::binary_op(disasm, OpCodes::And)
    }

    /// `mod`: the remainder of two registers.
    pub fn mod_op(disasm: &mut Disassembler) -> (done: Result<(), DisasmError>)
        ensures
            done == Self::outcome(OpCodes::Mod, old(disasm)@),
            final(disasm)@ == Self::state_after(OpCodes::Mod, old(disasm)@),
    {
        Self::binary_op(disasm, OpCodes::Mod)
    }

    /// `lte`: the less-or-equal comparison of two registers.
    pub fn lte_op(disasm: &mut Disassembler) -> (done: Result<(), DisasmError>)
        ensures
            done == Self::outcome(OpCodes::Lte, old(disasm)@),
            final(disasm)@ == Self::state_after(OpCodes::Lte, old(disasm)@),
    {
        Self::binary_op(disasm, OpCodes::Lte)
    }

    /// `notequal`: the inequality comparison of two registers.
    pub fn notequal_op(disasm: &mut Disassembler) -> (done: Result<(), DisasmError>)
        ensures
            done == Self::outcome(OpCodes::NotEqual, old(disasm)@),
            final(disasm)@ == Self::state_after(OpCodes::NotEqual, old(disasm)@),
    {
        Self::binary_op(disasm, OpCodes::NotEqual)
    }

    /// `jump-if-true`: cond-reg, target (a 32-bit word).
    pub fn jump_if_true(disasm: &mut Disassembler) -> (done: Result<(), DisasmError>)
        ensures
            done == Self::outcome(OpCodes::JumpIfTrue, old(disasm)@),
            final(disasm)@ == Self::state_after(OpCodes::JumpIfTrue, old(disasm)@),
    {
        Self::conditional_jump(disasm, OpCodes::JumpIfTrue)
    }

    /// `try-catch`: dest-reg, then the catch, finally and continue targets
    /// (32-bit words).
    pub fn try_catch(disasm: &mut Disassembler) -> (done: Result<(), DisasmError>)
        ensures
            done == Self::outcome(OpCodes::TryCatch, old(disasm)@),
            final(disasm)@ == Self::state_after(OpCodes::TryCatch, old(disasm)@),
    {
        let reg = disasm.get_byte()?;
        let catch_offset = disasm.get_int24()?;
        let finally_offset = disasm.get_int24()?;
        let continue_offset = disasm.get_int24()?;

        let mut line = String::from_str(OpCodes::TryCatch.as_str());
        push_text(&mut line, " [");
        push_decimal(&mut line, catch_offset as u64);
        push_text(&mut line, ", ");
        push_decimal(&mut line, finally_offset as u64);
        push_text(&mut line, ", ");
        push_decimal(&mut line, continue_offset as u64);
        push_text(&mut line, "]");
        Self::push_arrow(&mut line, reg);
        disasm.record(line);
        Ok(())
    }

    /// `strict-equal`: the strict equality comparison of two registers.
    pub fn strict_equal_op(disasm: &mut Disassembler) -> (done: Result<(), DisasmError>)
        ensures
            done == Self::outcome(OpCodes::StrictEqual, old(disasm)@),
            final(disasm)@ == Self::state_after(OpCodes::StrictEqual, old(disasm)@),
    {
        Self::binary_op(disasm, OpCodes::StrictEqual)
    }

    /// `strict-notequal`: the strict inequality comparison of two registers.
    pub fn strict_notequal_op(disasm: &mut Disassembler) -> (done: Result<(), DisasmError>)
        ensures
            done == Self::outcome(OpCodes::StrictNotEqual, old(disasm)@),
            final(disasm)@ == Self::state_after(OpCodes::StrictNotEqual, old(disasm)@),
    {
        Self::binary_op(disasm, OpCodes::StrictNotEqual)
    }

    /// `throw`: reg, shown as a bare index.
    pub fn throw_op(disasm: &mut Disassembler) -> (done: Result<(), DisasmError>)
        ensures
            done == Self::outcome(OpCodes::Throw, old(disasm)@),
            final(disasm)@ == Self::state_after(OpCodes::Throw, old(disasm)@),
    {
        let reg = disasm.get_byte()?;

        let mut line = String::from_str(OpCodes::Throw.as_str());
        push_text(&mut line, " ");
        push_decimal(&mut line, reg as u64);
        disasm.record(line);
        Ok(())
    }
}

} // verus!
