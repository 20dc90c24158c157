//! Rendering of numbers and register references as text.

use vstd::prelude::*;
use vstd::string::*;
use vstd::utf8::{decode_utf8, encode_utf8, encode_utf8_decode_utf8, is_char_boundary};

verus! {

/// The character of the decimal or hexadecimal digit `d` (lower case).
pub open spec fn spec_digit(d: nat) -> char
    recommends
        d < 16,
{
    if d < 10 {
        ((48 + d) as u8) as char
    } else {
        ((87 + d) as u8) as char
    }
}

/// Decimal notation of `n`, without leading zeros.
pub open spec fn spec_decimal(n: nat) -> Seq<char>
    decreases n,
{
    if n < 10 {
        seq![spec_digit(n)]
    } else {
        spec_decimal(n / 10).push(spec_digit(n % 10))
    }
}

/// Hexadecimal notation of `n`, in lower case and without leading zeros.
pub open spec fn spec_hex(n: nat) -> Seq<char>
    decreases n,
{
    if n < 16 {
        seq![spec_digit(n)]
    } else {
        spec_hex(n / 16).push(spec_digit(n % 16))
    }
}

/// The pad that `left_pad` works with: the given one, or a single space.
pub open spec fn spec_pad_text(pad_char: Option<&str>) -> Seq<char> {
    match pad_char {
        Some(pad) => pad@,
        None => " "@,
    }
}

/// `count` copies of `text`, one after the other.
pub open spec fn spec_repeat(text: Seq<char>, count: nat) -> Seq<char>
    decreases count,
{
    if count == 0 {
        Seq::empty()
    } else {
        spec_repeat(text, (count - 1) as nat) + text
    }
}

/// The text of the first `count` bytes of `pad` repeated without end: as
/// many whole copies of `pad` as fit, then the characters of the bytes of
/// `pad` that fill the rest. Lengths are those of the UTF-8 encoding.
pub open spec fn spec_padding(pad: Seq<char>, count: nat) -> Seq<char> {
    let width = encode_utf8(pad).len();
    spec_repeat(pad, count / width) + decode_utf8(
        encode_utf8(pad).subrange(0, (count % width) as int),
    )
}

/// Whether `pad` can fill `count` bytes: it is not empty, and the last copy
/// is not cut inside a character.
pub open spec fn spec_can_pad(pad: Seq<char>, count: nat) -> bool {
    let width = encode_utf8(pad).len();
    width > 0 && is_char_boundary(encode_utf8(pad), (count % width) as int)
}

/// The length of `text` in bytes, as `str::len` gives it.
pub open spec fn spec_byte_length(text: Seq<char>) -> usize {
    encode_utf8(text).len() as usize
}

/// `input` padded on the left to `target_length` bytes: unchanged where its
/// length in bytes reaches it, else behind as many bytes of the repeated pad
/// as it falls short.
pub open spec fn spec_left_pad(input: Seq<char>, target_length: nat, pad: Seq<char>) -> Seq<char> {
    let length = spec_byte_length(input);
    if length >= target_length {
        input
    } else {
        spec_padding(pad, (target_length - length) as nat) + input
    }
}

/// Decimal notation of a signed number: a minus sign only when negative.
pub open spec fn spec_signed_decimal(n: int) -> Seq<char> {
    if n < 0 {
        "-"@ + spec_decimal((-n) as nat)
    } else {
        spec_decimal(n as nat)
    }
}

/// The display form of an unbound register: `reg` followed by its index.
pub open spec fn spec_register(index: u8) -> Seq<char> {
    "reg"@ + spec_decimal(index as nat)
}

/// The display forms of `registers`, separated by commas.
pub open spec fn spec_register_list(registers: Seq<u8>) -> Seq<char>
    decreases registers.len(),
{
    if registers.len() == 0 {
        Seq::empty()
    } else if registers.len() == 1 {
        spec_register(registers[0])
    } else {
        spec_register_list(registers.drop_last()) + ","@ + spec_register(registers.last())
    }
}

/// `String::push`: appends one character to the end of the string.
#[verifier::external_body]
pub(crate) fn push_char(out: &mut String, c: char)
    ensures
        final(out)@ == old(out)@.push(c),
{
    out.push(c)
}

/// Appends `text` to `out`.
pub fn push_text(out: &mut String, text: &str)
    ensures
        final(out)@ == old(out)@ + text@,
{
    out.append(text);
}

/// Appends the digit `d` to `out`.
fn push_digit(out: &mut String, d: u8)
    requires
        d < 16,
    ensures
        final(out)@ == old(out)@.push(spec_digit(d as nat)),
{
    if d < 10 {
        push_char(out, (48u8 + d) as char);
    } else {
        push_char(out, (87u8 + d) as char);
    }
}

/// Appends the decimal notation of `n` to `out`.
pub fn push_decimal(out: &mut String, n: u64)
    ensures
        final(out)@ == old(out)@ + spec_decimal(n as nat),
    decreases n,
{
    if n >= 10 {
        push_decimal(out, n / 10);
    }
    push_digit(out, (n % 10) as u8);
    proof {
        assert(out@ =~= old(out)@ + spec_decimal(n as nat));
    }
}

/// Appends the hexadecimal notation of `n` to `out`.
pub fn push_hex(out: &mut String, n: u64)
    ensures
        final(out)@ == old(out)@ + spec_hex(n as nat),
    decreases n,
{
    if n >= 16 {
        push_hex(out, n / 16);
    }
    push_digit(out, (n % 16) as u8);
    proof {
        assert(out@ =~= old(out)@ + spec_hex(n as nat));
    }
}

/// Pads `input` on the left with `pad_char`, a single space when none is
/// given, up to `target_length` bytes. An input that is long enough comes
/// back unchanged, whatever the pad. Else the pad is repeated as often as
/// needed and cut where the length is reached; it must then not be empty,
/// and the cut must not fall inside one of its characters.
pub fn left_pad(input: &str, target_length: usize, pad_char: Option<&str>) -> (padded: String)
    requires
        input.len() < target_length ==> spec_can_pad(
            spec_pad_text(pad_char),
            (target_length - input.len()) as nat,
        ),
    ensures
        padded@ == spec_left_pad(input@, target_length as nat, spec_pad_text(pad_char)),
        input.len() >= target_length ==> padded@ == input@,
{
    let pad: &str = match pad_char {
        Some(pad) => pad,
        None => " ",
    };
    let length = input.len();
    if length >= target_length {
        return String::from_str(input);
    }
    let pad_length = target_length - length;
    let pad_len = pad.as_bytes().len();
    let repeat_count = pad_length / pad_len;

    let mut padded = String::new();
    let mut copies: usize = 0;
    while copies < repeat_count
        invariant
            copies <= repeat_count,
            padded@ == spec_repeat(pad@, copies as nat),
        decreases repeat_count - copies,
    {
        padded.append(pad);
        copies += 1;
    }
    let (final_pad, _) = pad.split_at(pad_length % pad_len);
    proof {
        encode_utf8_decode_utf8(final_pad@);
    }
    padded.append(final_pad);
    padded.append(input);
    padded
}

/// Appends the decimal notation of the signed number `n` to `out`.
pub fn push_signed_decimal(out: &mut String, n: i32)
    ensures
        final(out)@ == old(out)@ + spec_signed_decimal(n as int),
{
    if n < 0 {
        push_text(out, "-");
        push_decimal(out, (-(n as i64)) as u64);
        proof {
            assert(out@ =~= old(out)@ + spec_signed_decimal(n as int));
        }
    } else {
        push_decimal(out, n as u64);
    }
}

/// Appends the display form of the unbound register `index` to `out`.
pub fn push_register(out: &mut String, index: u8)
    ensures
        final(out)@ == old(out)@ + spec_register(index),
{
    push_text(out, "reg");
    push_decimal(out, index as u64);
    proof {
        assert(out@ =~= old(out)@ + spec_register(index));
    }
}

} // verus!
