//! Laws of the decoder, stated over its model and proved.

use vstd::arithmetic::power2::{lemma2_to64, pow2};
use vstd::prelude::*;
use crate::disassembler::disassembler::{DisassemblerView, STRING_MASK};
use crate::disassembler::double::{
    spec_bit, spec_bits_value, spec_decode_double, spec_exponent_field, spec_mantissa_field,
    spec_sign_bit, DecodedDouble, IMPLICIT_BIT,
};
use crate::disassembler::error::{DisasmError, Failure};
use crate::disassembler::instructions::Instructions;
use crate::disassembler::opcodes::OpCodes;

verus! {

/// The bytes of a string constant: the length as a big-endian 16-bit word,
/// then one byte for each character, its code XORed with the mask.
pub open spec fn spec_encode_string(text: Seq<char>) -> Seq<u8> {
    seq![(text.len() / 256) as u8, (text.len() % 256) as u8] + Seq::new(
        text.len(),
        |i: int| (text[i] as u8) ^ STRING_MASK,
    )
}

/// Whether `text` can be written as a string constant: at most 65535
/// characters, each with a code from 0 to 255.
pub open spec fn spec_encodable(text: Seq<char>) -> bool {
    &&& text.len() <= 0xffff
    &&& forall|i: int| 0 <= i < text.len() ==> 0 <= (#[trigger] text[i]) as int <= 0xff
}

proof fn lemma_word16_of_length(n: u32)
    requires
        n <= 0xffff,
    ensures
        ((((n / 256) as u8) as u32) << 8) | (((n % 256) as u8) as u32) == n,
{
    assert(((((n / 256) as u8) as u32) << 8) | (((n % 256) as u8) as u32) == n) by (bit_vector)
        requires
            n <= 0xffff,
    ;
}

proof fn lemma_mask_twice(code: u8)
    ensures
        (code ^ STRING_MASK) ^ STRING_MASK == code,
{
    assert((code ^ 50u8) ^ 50u8 == code) by (bit_vector);
}

/// Decoding inverts encoding: where the bytes at the read position are the
/// encoding of an encodable `text`, the string constant there fits, has the
/// length of `text` and decodes to `text`.
pub proof fn lemma_string_round_trip(v: DisassemblerView, text: Seq<char>)
    requires
        v.wf(),
        spec_encodable(text),
        v.fits(2 + text.len() as int),
        v.span(0, 2 + text.len() as int) == spec_encode_string(text),
    ensures
        v.word16(0) == text.len(),
        v.fits(2 + v.word16(0)),
        v.string_at(0) == text,
{
    let n = text.len() as u32;
    let encoded = spec_encode_string(text);
    assert(v.at(0) == encoded[0]);
    assert(v.at(1) == encoded[1]);
    lemma_word16_of_length(n);
    assert forall|i: int| 0 <= i < text.len() implies #[trigger] v.string_at(0)[i] == text[i] by {
        assert(v.at(2 + i) == encoded[2 + i]);
        lemma_mask_twice(text[i] as u8);
    }
    assert(v.string_at(0) =~= text);
}

/// A string constant whose declared length exceeds the bytes that follow it
/// cannot be decoded: a constant definition there fails with `OutOfBounds`,
/// and so does the run.
pub proof fn lemma_truncated_constant_fails(v: DisassemblerView)
    requires
        v.wf(),
        v.failure is None,
        v.fits(4),
        Instructions::opcode_kind(v.at(0)) == Some(OpCodes::NewValue),
        v.bytes.len() - (v.offset + 4) < v.advance(1).word16(1),
    ensures
        v.step_result() == Err::<Option<Seq<char>>, DisasmError>(DisasmError::OutOfBounds),
        v.step_state() == v.exhausted().failed(DisasmError::OutOfBounds, v.offset),
        v.run().error == Some(DisasmError::OutOfBounds),
        v.run().lines == Seq::<Seq<char>>::empty(),
{
}

/// An opcode byte outside the dispatch table fails the step, and with it
/// the run, with `UnknownOpcode` of that very byte; no line is produced, and
/// the failure is recorded with the offset of the byte.
pub proof fn lemma_unknown_opcode_fails(v: DisassemblerView)
    requires
        v.wf(),
        v.failure is None,
        v.fits(1),
        Instructions::opcode_kind(v.at(0)) is None,
    ensures
        v.step_result() == Err::<Option<Seq<char>>, DisasmError>(
            DisasmError::UnknownOpcode(v.at(0)),
        ),
        v.step_state() == v.advance(1).failed(DisasmError::UnknownOpcode(v.at(0)), v.offset),
        v.run().error == Some(DisasmError::UnknownOpcode(v.at(0))),
        v.run().lines == Seq::<Seq<char>>::empty(),
{
}

/// `halt` does not end the run: it leaves its line, and the run goes on with
/// the byte after it.
pub proof fn lemma_halt_goes_on(v: DisassemblerView)
    requires
        v.wf(),
        v.failure is None,
        v.fits(1),
        Instructions::opcode_kind(v.at(0)) == Some(OpCodes::Halt),
    ensures
        v.step_state() == v.advance(1).record(OpCodes::Halt.mnemonic()),
        v.step_result() == Ok::<Option<Seq<char>>, DisasmError>(
            Some(DisassemblerView::annotate(v.offset + 1, OpCodes::Halt.mnemonic())),
        ),
        v.run().state == v.step_state().run().state,
        v.run().error == v.step_state().run().error,
        v.run().lines == seq![
            DisassemblerView::annotate(v.offset + 1, OpCodes::Halt.mnemonic()),
        ] + v.step_state().run().lines,
{
}

/// The opcode bytes that share a kind: 20 and 112 are both the less-than
/// comparison, 247 and 214 both the less-or-equal comparison.
pub proof fn lemma_alias_opcodes()
    ensures
        Instructions::opcode_kind(20) == Some(OpCodes::LessThan),
        Instructions::opcode_kind(112) == Some(OpCodes::LessThan),
        Instructions::opcode_kind(247) == Some(OpCodes::Lte),
        Instructions::opcode_kind(214) == Some(OpCodes::Lte),
{
}

/// Whether two states differ at most in the byte at their common read
/// position.
pub open spec fn spec_same_but_opcode(first: DisassemblerView, second: DisassemblerView) -> bool {
    &&& first.offset == second.offset
    &&& first.registers == second.registers
    &&& first.trace == second.trace
    &&& first.failure == second.failure
    &&& first.bytes.len() == second.bytes.len()
    &&& forall|i: int|
        0 <= i < first.bytes.len() && i != first.offset ==> first.bytes[i] == second.bytes[i]
}

/// Two opcode bytes that select the same kind give the same step: on equal
/// operands they return the same line or the same failure, and leave the
/// same position, registers, trace and recorded failure.
pub proof fn lemma_same_kind_same_line(first: DisassemblerView, second: DisassemblerView)
    requires
        first.wf(),
        second.wf(),
        first.fits(1),
        spec_same_but_opcode(first, second),
        Instructions::opcode_kind(first.at(0)) is Some,
        Instructions::opcode_kind(first.at(0)) == Instructions::opcode_kind(second.at(0)),
    ensures
        first.step_result() == second.step_result(),
        first.step_state().offset == second.step_state().offset,
        first.step_state().registers == second.step_state().registers,
        first.step_state().trace == second.step_state().trace,
        first.step_state().failure == second.step_state().failure,
{
    let kind = Instructions::opcode_kind(first.at(0)).unwrap();
    let a = first.advance(1);
    let b = second.advance(1);
    assert forall|k: int| 0 <= k && a.fits(k + 1) implies a.at(k) == b.at(k) by {}
    assert(Instructions::width(kind, a) == Instructions::width(kind, b));
    if a.fits(Instructions::width(kind, a) as int) {
        lemma_same_operands_same_line(kind, a, b);
    }
}

/// The line of an instruction depends on the kind, the operand bytes and
/// the registers alone.
proof fn lemma_same_operands_same_line(kind: OpCodes, a: DisassemblerView, b: DisassemblerView)
    requires
        a.wf(),
        b.wf(),
        a.offset == b.offset,
        a.registers == b.registers,
        a.bytes.len() == b.bytes.len(),
        forall|i: int| a.offset <= i < a.bytes.len() ==> a.bytes[i] == b.bytes[i],
        a.fits(Instructions::width(kind, a) as int),
    ensures
        Instructions::line(kind, a) == Instructions::line(kind, b),
        kind == OpCodes::NewValue ==> a.string_at(1) == b.string_at(1),
{
    match kind {
        OpCodes::NewValue => {
            assert(a.string_at(1) =~= b.string_at(1));
        },
        OpCodes::CallFunction => {
            assert(a.span(3, a.at(2) as int) =~= b.span(3, b.at(2) as int));
        },
        OpCodes::CallApply => {
            assert(a.span(4, a.at(3) as int) =~= b.span(4, b.at(3) as int));
        },
        OpCodes::PushArgs | OpCodes::Ret => {
            assert(a.span(2, a.at(1) as int) =~= b.span(2, b.at(1) as int));
        },
        OpCodes::JumpFrame | OpCodes::NewFunction => {
            assert(a.span(6, a.at(5) as int) =~= b.span(6, b.at(5) as int));
        },
        OpCodes::LoadDouble => {
            assert(a.span(1, 8) =~= b.span(1, 8));
        },
        _ => {},
    }
}

/// A step never goes back: the buffer stays, the read position does not
/// decrease, the trace only grows at its end, and no bound register becomes
/// unbound.
pub proof fn lemma_step_is_monotone(v: DisassemblerView)
    requires
        v.wf(),
    ensures
        v.step_state().wf(),
        v.step_state().bytes == v.bytes,
        v.step_state().offset >= v.offset,
        v.step_state().trace.len() >= v.trace.len(),
        v.step_state().trace.take(v.trace.len() as int) == v.trace,
        forall|i: int|
            0 <= i < v.registers.len() && v.registers[i] is Some
                ==> #[trigger] v.step_state().registers[i] is Some,
{
    assert(v.step_state().trace.take(v.trace.len() as int) =~= v.trace);
}

/// The divisor that brings bit `j` of a byte to the lowest place.
spec fn spec_bit_divisor(j: int) -> int {
    if j == 0 {
        128
    } else if j == 1 {
        64
    } else if j == 2 {
        32
    } else if j == 3 {
        16
    } else if j == 4 {
        8
    } else if j == 5 {
        4
    } else if j == 6 {
        2
    } else {
        1
    }
}

/// Reading one more bit, bit `j` of byte `i`, doubles the number read so far
/// and adds the bit.
proof fn lemma_one_more_bit(bytes: Seq<u8>, from: int, i: int, j: int)
    requires
        0 <= i < bytes.len(),
        0 <= j < 8,
        from <= 8 * i + j,
    ensures
        spec_bits_value(bytes, from, 8 * i + j + 1) == 2 * spec_bits_value(bytes, from, 8 * i + j)
            + (bytes[i] as int / spec_bit_divisor(j)) % 2,
{
    lemma2_to64();
    let k = 8 * i + j;
    assert(k / 8 == i);
    assert(k % 8 == j);
    assert(pow2((7 - j) as nat) == spec_bit_divisor(j));
    assert(spec_bit(bytes, k) == (bytes[i] as int / spec_bit_divisor(j)) % 2);
    assert(spec_bits_value(bytes, from, k + 1) == 2 * spec_bits_value(bytes, from, k + 1 - 1)
        + spec_bit(bytes, k + 1 - 1));
}

/// A byte's low and high half as sums of their bits.
proof fn lemma_halves_of_byte(b: u8)
    ensures
        b % 16 == 8 * ((b / 8) % 2) + 4 * ((b / 4) % 2) + 2 * ((b / 2) % 2) + (b / 1) % 2,
        b / 16 == 8 * ((b / 128) % 2) + 4 * ((b / 64) % 2) + 2 * ((b / 32) % 2) + (b / 16) % 2,
        b % 128 == 64 * ((b / 64) % 2) + 32 * ((b / 32) % 2) + 16 * ((b / 16) % 2) + b % 16,
{
    assert(b % 16 == 8 * ((b / 8) % 2) + 4 * ((b / 4) % 2) + 2 * ((b / 2) % 2) + (b / 1) % 2)
        by (bit_vector);
    assert(b / 16 == 8 * ((b / 128) % 2) + 4 * ((b / 64) % 2) + 2 * ((b / 32) % 2) + (b / 16) % 2)
        by (bit_vector);
    assert(b % 128 == 64 * ((b / 64) % 2) + 32 * ((b / 32) % 2) + 16 * ((b / 16) % 2) + b % 16)
        by (bit_vector);
}

/// The last four bits of byte `i`, read after the bits from `from` on.
proof fn lemma_low_half_of_byte(bytes: Seq<u8>, from: int, i: int)
    requires
        0 <= i < bytes.len(),
        from <= 8 * i + 4,
    ensures
        spec_bits_value(bytes, from, 8 * i + 8) == 16 * spec_bits_value(bytes, from, 8 * i + 4)
            + bytes[i] % 16,
{
    lemma_one_more_bit(bytes, from, i, 4);
    lemma_one_more_bit(bytes, from, i, 5);
    lemma_one_more_bit(bytes, from, i, 6);
    lemma_one_more_bit(bytes, from, i, 7);
    lemma_halves_of_byte(bytes[i]);
    let b = bytes[i] as int;
    let v4 = spec_bits_value(bytes, from, 8 * i + 4);
    let v5 = spec_bits_value(bytes, from, 8 * i + 5);
    let v6 = spec_bits_value(bytes, from, 8 * i + 6);
    let v7 = spec_bits_value(bytes, from, 8 * i + 7);
    let v8 = spec_bits_value(bytes, from, 8 * i + 8);
    assert(v5 == 2 * v4 + (b / 8) % 2);
    assert(v6 == 2 * v5 + (b / 4) % 2);
    assert(v7 == 2 * v6 + (b / 2) % 2);
    assert(v8 == 2 * v7 + (b / 1) % 2);
}

/// The first four bits of byte `i`, read after the bits from `from` on.
proof fn lemma_high_half_of_byte(bytes: Seq<u8>, from: int, i: int)
    requires
        0 <= i < bytes.len(),
        from <= 8 * i,
    ensures
        spec_bits_value(bytes, from, 8 * i + 4) == 16 * spec_bits_value(bytes, from, 8 * i)
            + bytes[i] / 16,
{
    lemma_one_more_bit(bytes, from, i, 0);
    lemma_one_more_bit(bytes, from, i, 1);
    lemma_one_more_bit(bytes, from, i, 2);
    lemma_one_more_bit(bytes, from, i, 3);
    lemma_halves_of_byte(bytes[i]);
    let b = bytes[i] as int;
    let v0 = spec_bits_value(bytes, from, 8 * i);
    let v1 = spec_bits_value(bytes, from, 8 * i + 1);
    let v2 = spec_bits_value(bytes, from, 8 * i + 2);
    let v3 = spec_bits_value(bytes, from, 8 * i + 3);
    let v4 = spec_bits_value(bytes, from, 8 * i + 4);
    assert(v1 == 2 * v0 + (b / 128) % 2);
    assert(v2 == 2 * v1 + (b / 64) % 2);
    assert(v3 == 2 * v2 + (b / 32) % 2);
    assert(v4 == 2 * v3 + (b / 16) % 2);
}

/// The eight bits of byte `i`, read after the bits from `from` on.
proof fn lemma_whole_byte(bytes: Seq<u8>, from: int, i: int)
    requires
        0 <= i < bytes.len(),
        from <= 8 * i,
    ensures
        spec_bits_value(bytes, from, 8 * i + 8) == 256 * spec_bits_value(bytes, from, 8 * i)
            + bytes[i],
{
    lemma_high_half_of_byte(bytes, from, i);
    lemma_low_half_of_byte(bytes, from, i);
    assert(bytes[i] as int == 16 * (bytes[i] / 16) + bytes[i] % 16);
}

/// The last seven bits of the first byte.
proof fn lemma_first_byte_without_sign(bytes: Seq<u8>)
    requires
        0 < bytes.len(),
    ensures
        spec_bits_value(bytes, 1, 8) == bytes[0] % 128,
{
    lemma_one_more_bit(bytes, 1, 0, 1);
    lemma_one_more_bit(bytes, 1, 0, 2);
    lemma_one_more_bit(bytes, 1, 0, 3);
    lemma_low_half_of_byte(bytes, 1, 0);
    lemma_halves_of_byte(bytes[0]);
    let b = bytes[0] as int;
    let v1 = spec_bits_value(bytes, 1, 1);
    let v2 = spec_bits_value(bytes, 1, 2);
    let v3 = spec_bits_value(bytes, 1, 3);
    let v4 = spec_bits_value(bytes, 1, 4);
    assert(v1 == 0);
    assert(v2 == 2 * v1 + (b / 64) % 2);
    assert(v3 == 2 * v2 + (b / 32) % 2);
    assert(v4 == 2 * v3 + (b / 16) % 2);
}

/// The three fields of a double are bit ranges of its 64-bit pattern: bit 0
/// is the sign, bits 1 to 11 are the exponent field and bits 12 to 63 the
/// mantissa field, each read as an unsigned binary number.
pub proof fn lemma_fields_are_bit_ranges(bytes: Seq<u8>)
    requires
        bytes.len() == 8,
    ensures
        spec_sign_bit(bytes) == (spec_bit(bytes, 0) == 1),
        spec_exponent_field(bytes) == spec_bits_value(bytes, 1, 12),
        spec_mantissa_field(bytes) == spec_bits_value(bytes, 12, 64),
{
    assert(spec_bit(bytes, 0) == bytes[0] / 128) by {
        lemma2_to64();
    }
    lemma_first_byte_without_sign(bytes);
    lemma_high_half_of_byte(bytes, 1, 1);
    assert(spec_bits_value(bytes, 12, 12) == 0);
    lemma_low_half_of_byte(bytes, 12, 1);
    lemma_whole_byte(bytes, 12, 2);
    lemma_whole_byte(bytes, 12, 3);
    lemma_whole_byte(bytes, 12, 4);
    lemma_whole_byte(bytes, 12, 5);
    lemma_whole_byte(bytes, 12, 6);
    lemma_whole_byte(bytes, 12, 7);
}

/// A failure is final: from a failed state a step changes nothing and fails
/// with the recorded error, and so does the run.
pub proof fn lemma_failure_is_final(v: DisassemblerView, failure: Failure)
    requires
        v.wf(),
        v.failure == Some(failure),
    ensures
        v.step_state() == v,
        v.step_result() == Err::<Option<Seq<char>>, DisasmError>(failure.error),
        v.run().state == v,
        v.run().error == Some(failure.error),
        v.run().lines == Seq::<Seq<char>>::empty(),
{
}

/// A step fails exactly where it records a failure, and what it records is
/// the error it returns and the offset at which the step began.
pub proof fn lemma_failed_step_is_recorded(v: DisassemblerView)
    requires
        v.wf(),
        v.failure is None,
    ensures
        v.step_result() is Err <==> v.step_state().failure is Some,
        v.step_result() matches Err(error) ==> v.step_state().failure == Some(
            Failure { error, offset: v.offset as usize },
        ),
{
}

/// Only a constant definition changes the register table.
pub proof fn lemma_only_constants_bind(v: DisassemblerView)
    requires
        v.wf(),
        !(v.fits(1) && Instructions::opcode_kind(v.at(0)) == Some(OpCodes::NewValue)),
    ensures
        v.step_state().registers == v.registers,
{
}

/// Eight zero bytes decode to zero.
pub proof fn lemma_zero_bytes_decode_to_zero(bytes: Seq<u8>)
    requires
        bytes.len() == 8,
        forall|i: int| 0 <= i < 8 ==> bytes[i] == 0,
    ensures
        spec_decode_double(bytes) == (DecodedDouble {
            negative: false,
            significand: 0,
            exponent: 0,
        }),
{
}

/// A subnormal pattern (all-zero exponent field, another mantissa) decodes
/// with exponent -1022 and without the leading bit: the significand is the
/// mantissa itself.
pub proof fn lemma_subnormal_has_no_leading_bit(bytes: Seq<u8>)
    requires
        bytes.len() == 8,
        spec_exponent_field(bytes) == 0,
        spec_mantissa_field(bytes) != 0,
    ensures
        spec_decode_double(bytes).exponent == -1022,
        spec_decode_double(bytes).significand == spec_mantissa_field(bytes),
        spec_decode_double(bytes).significand < IMPLICIT_BIT,
        spec_decode_double(bytes).negative == spec_sign_bit(bytes),
{
}

/// Every other pattern with a nonzero exponent field, the all-ones field
/// included, decodes with the leading bit set and the exponent field less
/// 1023.
pub proof fn lemma_normal_has_leading_bit(bytes: Seq<u8>)
    requires
        bytes.len() == 8,
        spec_exponent_field(bytes) != 0,
    ensures
        spec_decode_double(bytes).exponent == spec_exponent_field(bytes) - 1023,
        spec_decode_double(bytes).significand == IMPLICIT_BIT + spec_mantissa_field(bytes),
        spec_decode_double(bytes).negative == spec_sign_bit(bytes),
        spec_decode_double(bytes).wf(),
{
}

} // verus!
