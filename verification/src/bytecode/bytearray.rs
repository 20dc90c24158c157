//! From the textual encoding of a byte stream to its bytes.

use vstd::prelude::*;
use crate::disassembler::error::DisasmError;
use crate::disassembler::text::push_char;

verus! {

/// The outside crate's decoding error; its contents are not read.
#[verifier::external_type_specification]
#[verifier::external_body]
pub struct ExDecodeError(base64::DecodeError);

/// Whether `c` has the Unicode property White_Space: the code points
/// U+0009 to U+000D, U+0020, U+0085, U+00A0, U+1680, U+2000 to U+200A,
/// U+2028, U+2029, U+202F, U+205F and U+3000.
pub open spec fn char_is_whitespace(c: char) -> bool {
    let code = c as u32;
    ||| 0x0009 <= code <= 0x000d
    ||| code == 0x0020
    ||| code == 0x0085
    ||| code == 0x00a0
    ||| code == 0x1680
    ||| 0x2000 <= code <= 0x200a
    ||| code == 0x2028
    ||| code == 0x2029
    ||| code == 0x202f
    ||| code == 0x205f
    ||| code == 0x3000
}

/// What the standard base64 engine (standard alphabet, canonical padding)
/// decodes `text` to; `None` where it rejects `text`.
pub uninterp spec fn base64_standard_decoding(text: Seq<char>) -> Option<Seq<u8>>;

/// `text` without its whitespace characters, the others in their order.
pub open spec fn spec_strip_whitespace(text: Seq<char>) -> Seq<char>
    decreases text.len(),
{
    if text.len() == 0 {
        Seq::empty()
    } else if char_is_whitespace(text.last()) {
        spec_strip_whitespace(text.drop_last())
    } else {
        spec_strip_whitespace(text.drop_last()).push(text.last())
    }
}

/// The bytes that an encoded text stands for: whitespace is dropped, the rest
/// is decoded as base64. `None` where the rest is not valid base64.
pub open spec fn spec_decode_bytecode(text: Seq<char>) -> Option<Seq<u8>> {
    base64_standard_decoding(spec_strip_whitespace(text))
}

/// `char::is_whitespace`, which reports the Unicode property White_Space.
/// The contract states that the property holds of exactly the code points
/// that `char_is_whitespace` lists.
#[verifier::external_body]
fn is_whitespace(c: char) -> (white: bool)
    ensures
        white == char_is_whitespace(c),
{
    c.is_whitespace()
}

/// `Engine::decode` of the base64 crate on its `STANDARD` engine. The
/// contract only names the result: the call succeeds exactly where the named
/// decoding exists, and then returns it. The call depends on `text` alone.
#[verifier::external_body]
fn base64_decode(text: &str) -> (decoded: Result<Vec<u8>, base64::DecodeError>)
    ensures
        decoded is Ok <==> base64_standard_decoding(text@) is Some,
        decoded matches Ok(bytes) ==> Some(bytes@) == base64_standard_decoding(text@),
{
    base64::Engine::decode(&base64::engine::general_purpose::STANDARD, text)
}

/// Copies `text` without its whitespace characters.
pub fn strip_whitespace(text: &str) -> (stripped: String)
    ensures
        stripped@ == spec_strip_whitespace(text@),
{
    let mut stripped = String::new();
    for c in it: text.chars()
        invariant
            it.seq() == text@,
            stripped@ == spec_strip_whitespace(text@.take(it.index())),
    {
        proof {
            let prefix = text@.take(it.index() + 1);
            assert(prefix.drop_last() =~= text@.take(it.index()));
            assert(prefix.last() == c);
        }
        if !is_whitespace(c) {
            push_char(&mut stripped, c);
        }
    }
    proof {
        assert(text@.take(text@.len() as int) =~= text@);
    }
    stripped
}

/// Decodes an encoded byte stream: drops all whitespace, then decodes the
/// rest as standard base64. Fails with `InvalidEncoding` exactly where the
/// rest is not valid base64.
pub fn decode_bytecode(b64string: String) -> (bytes: Result<Vec<u8>, DisasmError>)
    ensures
        match bytes {
            Ok(decoded) => spec_decode_bytecode(b64string@) == Some(decoded@),
            Err(e) => e == DisasmError::InvalidEncoding && spec_decode_bytecode(b64string@) is None,
        },
{
    let stripped = strip_whitespace(b64string.as_str());
    match base64_decode(stripped.as_str()) {
        Ok(decoded) => Ok(decoded),
        Err(_) => Err(DisasmError::InvalidEncoding),
    }
}

} // verus!
