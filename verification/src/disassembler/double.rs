//! Decoding of the eight bytes of an IEEE-754 double into its exact parts.

use vstd::arithmetic::power2::pow2;
use vstd::prelude::*;
use vstd::string::*;
use vstd::utf8::{
    encode_utf8, encode_utf8_valid_utf8, is_ascii_chars, is_ascii_chars_encode_utf8,
    is_char_boundary,
};
use crate::disassembler::text::{
    left_pad, push_decimal, push_hex, push_signed_decimal, push_text,
    spec_decimal, spec_hex, spec_left_pad, spec_signed_decimal,
};

verus! {

/// Two to the power 52: the weight of the leading bit of a significand.
pub const IMPLICIT_BIT: u64 = 0x10_0000_0000_0000;

/// A decoded double, held exactly.
///
/// The number it stands for is `significand * 2^(exponent - 52)`, negated
/// when `negative` is set. Bit 52 of `significand` is the leading bit of the
/// significand (weight one); the 52 bits below it are the mantissa field.
#[derive(Clone, Copy, Debug, PartialEq, Eq, Structural)]
pub struct DecodedDouble {
    /// The sign bit. Always clear for zero.
    pub negative: bool,
    /// The 53-bit significand, leading bit included.
    pub significand: u64,
    /// The effective (unbiased) exponent.
    pub exponent: i32,
}

/// Bit `k` of the 64-bit pattern that eight bytes make up: every byte gives
/// eight bits, its most significant bit first, and the first byte comes
/// first.
pub open spec fn spec_bit(bytes: Seq<u8>, k: int) -> int {
    (bytes[k / 8] as int / pow2((7 - k % 8) as nat) as int) % 2
}

/// The bits from `from` up to, not including, `to`, read as an unsigned
/// binary number.
pub open spec fn spec_bits_value(bytes: Seq<u8>, from: int, to: int) -> int
    decreases to - from,
{
    if to <= from {
        0
    } else {
        2 * spec_bits_value(bytes, from, to - 1) + spec_bit(bytes, to - 1)
    }
}

/// Bit 0 of the 64-bit pattern: the sign.
pub open spec fn spec_sign_bit(bytes: Seq<u8>) -> bool {
    bytes[0] >= 128
}

/// Bits 1 to 11 of the 64-bit pattern, most significant byte first, read as
/// an unsigned number: the biased exponent.
pub open spec fn spec_exponent_field(bytes: Seq<u8>) -> int {
    (bytes[0] % 128) * 16 + bytes[1] / 16
}

/// Bits 12 to 63 of the 64-bit pattern read as an unsigned number: the
/// mantissa.
pub open spec fn spec_mantissa_field(bytes: Seq<u8>) -> int {
    (bytes[1] % 16) * 0x1_0000_0000_0000 + bytes[2] * 0x100_0000_0000 + bytes[3] * 0x1_0000_0000
        + bytes[4] * 0x100_0000 + bytes[5] * 0x1_0000 + bytes[6] * 0x100 + bytes[7]
}

/// What the eight bytes `bytes` decode to.
///
/// An all-zero exponent field with an all-zero mantissa is zero, whatever the
/// sign bit. An all-zero exponent field with another mantissa is subnormal:
/// exponent -1022 and no leading bit. Every other pattern, the all-ones
/// exponent field included, gets the leading bit and its exponent field less
/// 1023.
pub open spec fn spec_decode_double(bytes: Seq<u8>) -> DecodedDouble {
    let exponent = spec_exponent_field(bytes);
    let mantissa = spec_mantissa_field(bytes);
    if exponent == 0 {
        if mantissa == 0 {
            DecodedDouble { negative: false, significand: 0, exponent: 0 }
        } else {
            DecodedDouble {
                negative: spec_sign_bit(bytes),
                significand: mantissa as u64,
                exponent: -1022i32,
            }
        }
    } else {
        DecodedDouble {
            negative: spec_sign_bit(bytes),
            significand: (IMPLICIT_BIT + mantissa) as u64,
            exponent: (exponent - 1023) as i32,
        }
    }
}

impl DecodedDouble {
    /// What every decoded value satisfies: a 53-bit significand, an exponent
    /// from -1022 to 1024, and a single form of zero.
    pub open spec fn wf(self) -> bool {
        &&& self.significand < 2 * IMPLICIT_BIT
        &&& -1022 <= self.exponent <= 1024
        &&& self.significand == 0 ==> !self.negative && self.exponent == 0
        &&& self.significand != 0 && self.significand < IMPLICIT_BIT ==> self.exponent == -1022
    }

    /// Whether the value is zero.
    pub open spec fn spec_is_zero(self) -> bool {
        self.significand == 0
    }

    /// The mantissa in hexadecimal notation, padded with zeros to thirteen
    /// bytes, which for digits are thirteen characters.
    pub open spec fn spec_mantissa_text(self) -> Seq<char> {
        let digits = spec_hex((self.significand % IMPLICIT_BIT) as nat);
        spec_left_pad(digits, 13, "0"@)
    }

    /// The text that `text` renders: `0` for zero, else an optional minus
    /// sign, `0x`, the leading bit in decimal, a point, the mantissa in thirteen
    /// hexadecimal digits, `p` and the exponent in decimal.
    pub open spec fn spec_text(self) -> Seq<char> {
        if self.significand == 0 {
            "0"@
        } else {
            (if self.negative {
                "-"@
            } else {
                ""@
            }) + "0x"@ + spec_decimal((self.significand / IMPLICIT_BIT) as nat) + "."@
                + self.spec_mantissa_text() + "p"@
                + spec_signed_decimal(self.exponent as int)
        }
    }

    /// Decodes the eight bytes of `bytes` that start at `at`.
    pub fn decode(bytes: &Vec<u8>, at: usize) -> (value: DecodedDouble)
        requires
            at + 8 <= bytes.len(),
        ensures
            value == spec_decode_double(bytes@.subrange(at as int, at + 8)),
            value.wf(),
    {
        let ghost field = bytes@.subrange(at as int, at + 8);
        assert(forall|k: int| 0 <= k < 8 ==> field[k] == bytes@[at + k]);
        let negative = bytes[at] >= 128;
        let exponent: i32 = (bytes[at] % 128) as i32 * 16 + (bytes[at + 1] / 16) as i32;
        let mantissa: u64 = (bytes[at + 1] % 16) as u64 * 0x1_0000_0000_0000 + bytes[at + 2] as u64
            * 0x100_0000_0000 + bytes[at + 3] as u64 * 0x1_0000_0000 + bytes[at + 4] as u64
            * 0x100_0000 + bytes[at + 5] as u64 * 0x1_0000 + bytes[at + 6] as u64 * 0x100
            + bytes[at + 7] as u64;
        assert(exponent == spec_exponent_field(field));
        assert(mantissa == spec_mantissa_field(field));
        if exponent == 0 {
            if mantissa == 0 {
                DecodedDouble { negative: false, significand: 0, exponent: 0 }
            } else {
                DecodedDouble { negative, significand: mantissa, exponent: -1022 }
            }
        } else {
            DecodedDouble { negative, significand: IMPLICIT_BIT + mantissa, exponent: exponent - 1023 }
        }
    }

    /// Whether the value is zero.
    pub fn is_zero(&self) -> (zero: bool)
        ensures
            zero == self.spec_is_zero(),
    {
        self.significand == 0
    }

    /// The value in hexadecimal floating-point notation.
    pub fn text(&self) -> (text: String)
        ensures
            text@ == self.spec_text(),
    {
        if self.significand == 0 {
            return String::from_str("0");
        }
        let mut out = String::from_str(if self.negative { "-" } else { "" });
        push_text(&mut out, "0x");
        push_decimal(&mut out, self.significand / IMPLICIT_BIT);
        push_text(&mut out, ".");
        let mut digits = String::new();
        push_hex(&mut digits, self.significand % IMPLICIT_BIT);
        proof {
            reveal_strlit("0");
            assert(digits@ =~= spec_hex((self.significand % IMPLICIT_BIT) as nat));
            assert(is_ascii_chars("0"@));
            is_ascii_chars_encode_utf8("0"@);
            encode_utf8_valid_utf8("0"@);
            assert(is_char_boundary(encode_utf8("0"@), 0));
        }
        let mantissa = left_pad(digits.as_str(), 13, Some("0"));
        push_text(&mut out, mantissa.as_str());
        push_text(&mut out, "p");
        push_signed_decimal(&mut out, self.exponent);
        proof {
            assert(out@ =~= self.spec_text());
        }
        out
    }
}

} // verus!
