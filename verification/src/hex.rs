//! Lower-case hexadecimal text for byte strings.

use crate::primitives::string_from_utf8;
use vstd::prelude::*;
use vstd::utf8::{
    encode_utf8, encode_utf8_decode_utf8, encode_utf8_valid_utf8, is_ascii_chars,
    is_ascii_chars_encode_utf8,
};

verus! {

/// The digit that stands for a value below sixteen.
pub open spec fn digit_char(value: u8) -> char {
    if value < 10 {
        (0x30 + value) as char
    } else {
        (0x57 + value) as char
    }
}

/// The half of `bytes` that the digit at `position` stands for: the upper half
/// of a byte first, then its lower half.
pub open spec fn nibble(bytes: Seq<u8>, position: int) -> u8 {
    if position % 2 == 0 {
        bytes[position / 2] / 16
    } else {
        bytes[position / 2] % 16
    }
}

/// The text of `bytes`: two lower-case digits for each byte, in order.
pub open spec fn hex_text(bytes: Seq<u8>) -> Seq<char> {
    Seq::new(2 * bytes.len(), |position: int| digit_char(nibble(bytes, position)))
}

/// Whether every byte of `bytes` is an ASCII code.
pub open spec fn is_ascii_bytes(bytes: Seq<u8>) -> bool {
    forall|i: int| 0 <= i < bytes.len() ==> #[trigger] bytes[i] < 0x80
}

/// The characters whose ASCII codes are `bytes`.
pub open spec fn ascii_text(bytes: Seq<u8>) -> Seq<char> {
    Seq::new(bytes.len(), |i: int| bytes[i] as char)
}

/// ASCII codes are their own UTF-8 encoding.
pub proof fn lemma_ascii_text_encoding(bytes: Seq<u8>)
    requires
        is_ascii_bytes(bytes),
    ensures
        encode_utf8(ascii_text(bytes)) == bytes,
{
    let chars = ascii_text(bytes);
    assert forall|i: int| 0 <= i < chars.len() implies '\0' <= #[trigger] chars[i] <= '\u{7f}' by {
        assert(bytes[i] < 0x80);
    }
    assert(is_ascii_chars(chars));
    is_ascii_chars_encode_utf8(chars);
    assert forall|i: int| 0 <= i < bytes.len() implies encode_utf8(chars)[i] == bytes[i] by {
        assert(bytes[i] < 0x80);
        assert(chars[i] as u8 == encode_utf8(chars)[i]);
    }
    assert(encode_utf8(chars) =~= bytes);
}

/// The string whose characters have the ASCII codes `bytes`.
pub fn ascii_string(bytes: Vec<u8>) -> (text: String)
    requires
        is_ascii_bytes(bytes@),
    ensures
        text@ == ascii_text(bytes@),
{
    proof {
        lemma_ascii_text_encoding(bytes@);
        encode_utf8_valid_utf8(ascii_text(bytes@));
    }
    let ghost codes = bytes@;
    match string_from_utf8(bytes) {
        Some(text) => {
            proof {
                encode_utf8_decode_utf8(text@);
                encode_utf8_decode_utf8(ascii_text(codes));
            }
            text
        },
        None => String::new(),
    }
}

/// The ASCII code of the digit that stands for a value below sixteen.
fn digit_code(value: u8) -> (code: u8)
    requires
        value < 16,
    ensures
        code < 0x80,
        code as char == digit_char(value),
{
    if value < 10 {
        0x30 + value
    } else {
        0x57 + value
    }
}

/// Writes `bytes` as lower-case hexadecimal text.
pub fn encode(bytes: &[u8]) -> (text: String)
    ensures
        text@ == hex_text(bytes@),
        text@.len() == 2 * bytes@.len(),
{
    let mut codes: Vec<u8> = Vec::new();
    let mut i: usize = 0;
    while i < bytes.len()
        invariant
            i <= bytes@.len(),
            codes@.len() == 2 * i,
            is_ascii_bytes(codes@),
            forall|position: int|
                0 <= position < 2 * i ==> #[trigger] codes@[position] as char == digit_char(
                    nibble(bytes@, position),
                ),
        decreases bytes@.len() - i,
    {
        let byte = bytes[i];
        let upper = digit_code(byte / 16);
        let lower = digit_code(byte % 16);
        codes.push(upper);
        codes.push(lower);
        i = i + 1;
    }
    let text = ascii_string(codes);
    assert(text@ =~= hex_text(bytes@));
    text
}

/// The value below sixteen that a digit stands for, in either case; `None` for
/// a character that is no digit.
pub open spec fn digit_value(digit: char) -> Option<u8> {
    if '0' <= digit <= '9' {
        Some((digit as u8 - 0x30) as u8)
    } else if 'a' <= digit <= 'f' {
        Some((digit as u8 - 0x57) as u8)
    } else if 'A' <= digit <= 'F' {
        Some((digit as u8 - 0x37) as u8)
    } else {
        None
    }
}

/// Whether `text` is hexadecimal text: digits only, and an even number of them.
pub open spec fn is_hex_text(text: Seq<char>) -> bool {
    &&& text.len() % 2 == 0
    &&& forall|i: int| 0 <= i < text.len() ==> digit_value(#[trigger] text[i]) is Some
}

/// The bytes that hexadecimal text stands for: one for each two digits.
pub open spec fn hex_bytes(text: Seq<char>) -> Seq<u8> {
    Seq::new(
        text.len() / 2,
        |i: int|
            (16 * digit_value(text[2 * i]).unwrap() + digit_value(text[2 * i + 1]).unwrap()) as u8,
    )
}

/// What has been written as hexadecimal text is read back as it was.
pub proof fn lemma_hex_round_trip(bytes: Seq<u8>)
    ensures
        is_hex_text(hex_text(bytes)),
        hex_bytes(hex_text(bytes)) == bytes,
{
    let text = hex_text(bytes);
    assert forall|i: int| 0 <= i < text.len() implies digit_value(#[trigger] text[i]) == Some(
        nibble(bytes, i),
    ) by {
        lemma_digit_round_trip(nibble(bytes, i));
    }
    assert forall|i: int| 0 <= i < bytes.len() implies #[trigger] hex_bytes(text)[i] == bytes[i] by {
        assert(digit_value(text[2 * i]) == Some(nibble(bytes, 2 * i)));
        assert(digit_value(text[2 * i + 1]) == Some(nibble(bytes, 2 * i + 1)));
    }
    assert(hex_bytes(text) =~= bytes);
}

/// A digit written for a value stands for that value.
pub proof fn lemma_digit_round_trip(value: u8)
    requires
        value < 16,
    ensures
        digit_value(digit_char(value)) == Some(value),
{
}

/// The value that the digit with ASCII code `code` stands for.
fn code_value(code: u8) -> (value: Option<u8>)
    ensures
        match value {
            Some(v) => code < 0x80 && v < 16 && digit_value(code as char) == Some(v),
            None => code >= 0x80 || digit_value(code as char) is None,
        },
{
    if 0x30 <= code && code <= 0x39 {
        Some(code - 0x30)
    } else if 0x61 <= code && code <= 0x66 {
        Some(code - 0x57)
    } else if 0x41 <= code && code <= 0x46 {
        Some(code - 0x37)
    } else {
        None
    }
}

/// Text of digits is ASCII, so its UTF-8 bytes are the codes of its digits.
proof fn lemma_hex_text_codes(text: Seq<char>)
    requires
        forall|i: int| 0 <= i < text.len() ==> digit_value(#[trigger] text[i]) is Some,
    ensures
        encode_utf8(text).len() == text.len(),
        forall|i: int| 0 <= i < text.len() ==> #[trigger] encode_utf8(text)[i] == text[i] as u8,
{
    assert forall|i: int| 0 <= i < text.len() implies '\0' <= #[trigger] text[i] <= '\u{7f}' by {
        assert(digit_value(text[i]) is Some);
    }
    assert(is_ascii_chars(text));
    is_ascii_chars_encode_utf8(text);
}

/// Text whose UTF-8 bytes are ASCII codes consists of the characters with
/// these codes.
proof fn lemma_ascii_codes_text(text: Seq<char>)
    requires
        is_ascii_bytes(encode_utf8(text)),
    ensures
        text == ascii_text(encode_utf8(text)),
{
    lemma_ascii_text_encoding(encode_utf8(text));
    encode_utf8_decode_utf8(text);
    encode_utf8_decode_utf8(ascii_text(encode_utf8(text)));
}

/// Reads hexadecimal text, in either case.
///
/// Gives the bytes exactly where the text is hexadecimal; any other text gives
/// `None`.
pub fn decode(text: &str) -> (r: Option<Vec<u8>>)
    ensures
        match r {
            Some(bytes) => is_hex_text(text@) && bytes@ == hex_bytes(text@),
            None => !is_hex_text(text@),
        },
{
    let codes = text.as_bytes();
    if codes.len() % 2 != 0 {
        proof {
            if is_hex_text(text@) {
                lemma_hex_text_codes(text@);
            }
        }
        return None;
    }
    let mut bytes: Vec<u8> = Vec::new();
    let mut i: usize = 0;
    while i < codes.len()
        invariant
            codes@ == encode_utf8(text@),
            codes@.len() % 2 == 0,
            i % 2 == 0,
            i <= codes@.len(),
            bytes@.len() == i / 2,
            forall|j: int| 0 <= j < i ==> #[trigger] codes@[j] < 0x80,
            forall|j: int| 0 <= j < i ==> digit_value(#[trigger] codes@[j] as char) is Some,
            forall|k: int|
                0 <= k < i / 2 ==> #[trigger] bytes@[k] == (16 * digit_value(
                    codes@[2 * k] as char,
                ).unwrap() + digit_value(codes@[2 * k + 1] as char).unwrap()) as u8,
        decreases codes@.len() - i,
    {
        let upper = code_value(codes[i]);
        let lower = code_value(codes[i + 1]);
        match (upper, lower) {
            (Some(upper), Some(lower)) => {
                bytes.push(16 * upper + lower);
            },
            _ => {
                proof {
                    if is_hex_text(text@) {
                        lemma_hex_text_codes(text@);
                        assert(digit_value(text@[i as int]) is Some);
                        assert(digit_value(text@[i + 1]) is Some);
                    }
                }
                return None;
            },
        }
        i = i + 2;
    }
    proof {
        assert(is_ascii_bytes(codes@));
        lemma_ascii_codes_text(text@);
        assert(text@.len() == codes@.len());
        assert forall|j: int| 0 <= j < text@.len() implies digit_value(#[trigger] text@[j])
            is Some by {
            assert(text@[j] == codes@[j] as char);
        }
        assert(bytes@ =~= hex_bytes(text@));
    }
    Some(bytes)
}

} // verus!
