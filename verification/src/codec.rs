//! Hexadecimal text for binary identifiers.
//!
//! An identifier is written as two lowercase digits per byte, high nibble
//! first, with no prefix. Reading accepts digits of either case and nothing
//! else: no prefix, no white space, no padding.

use vstd::prelude::*;
use vstd::string::*;
use crate::error::FormatError;

verus! {

/// The lowercase digit for a nibble.
pub open spec fn hex_digit(n: int) -> char {
    if n == 0 {
        '0'
    } else if n == 1 {
        '1'
    } else if n == 2 {
        '2'
    } else if n == 3 {
        '3'
    } else if n == 4 {
        '4'
    } else if n == 5 {
        '5'
    } else if n == 6 {
        '6'
    } else if n == 7 {
        '7'
    } else if n == 8 {
        '8'
    } else if n == 9 {
        '9'
    } else if n == 10 {
        'a'
    } else if n == 11 {
        'b'
    } else if n == 12 {
        'c'
    } else if n == 13 {
        'd'
    } else if n == 14 {
        'e'
    } else {
        'f'
    }
}

/// The nibble that a digit of either case denotes; `None` for any other character.
pub open spec fn hex_value(c: char) -> Option<int> {
    if '0' <= c <= '9' {
        Some(c as int - '0' as int)
    } else if 'a' <= c <= 'f' {
        Some(c as int - 'a' as int + 10)
    } else if 'A' <= c <= 'F' {
        Some(c as int - 'A' as int + 10)
    } else {
        None
    }
}

/// Whether every character of the text is a hexadecimal digit.
pub open spec fn all_hex_digits(text: Seq<char>) -> bool {
    forall|i: int| 0 <= i < text.len() ==> (#[trigger] hex_value(text[i])) is Some
}

/// Whether every character of the text is a digit or one of `a` to `f`.
pub open spec fn all_lowercase_hex(text: Seq<char>) -> bool {
    forall|i: int|
        0 <= i < text.len() ==> '0' <= #[trigger] text[i] <= '9' || 'a' <= text[i] <= 'f'
}

/// The text of a byte sequence: two lowercase digits per byte.
pub open spec fn hex_text(bytes: Seq<u8>) -> Seq<char> {
    Seq::new(
        2 * bytes.len(),
        |i: int|
            if i % 2 == 0 {
                hex_digit(bytes[i / 2] as int / 16)
            } else {
                hex_digit(bytes[i / 2] as int % 16)
            },
    )
}

/// The byte that a pair of digits denotes.
pub open spec fn hex_pair(high: char, low: char) -> u8 {
    (hex_value(high).unwrap() * 16 + hex_value(low).unwrap()) as u8
}

/// The bytes that a text of an even number of digits denotes.
pub open spec fn hex_bytes(text: Seq<char>) -> Seq<u8> {
    Seq::new(text.len() / 2, |i: int| hex_pair(text[2 * i], text[2 * i + 1]))
}

/// What reading a text as an identifier of `len` bytes gives.
///
/// The text is refused when it holds anything but hexadecimal digits, when
/// the number of digits is odd, and when it denotes a number of bytes other
/// than `len`; nothing is cut off or filled up.
pub open spec fn hex_decoding(text: Seq<char>, len: nat) -> Result<Seq<u8>, FormatError> {
    if !all_hex_digits(text) {
        Err(FormatError::InvalidHexCharacter)
    } else if text.len() % 2 == 1 {
        Err(FormatError::OddLength)
    } else if text.len() != 2 * len {
        Err(FormatError::WrongLength)
    } else {
        Ok(hex_bytes(text))
    }
}

/// `rustc_hex::FromHexError`, taken as it is: the library maps it to its own
/// `FormatError` without looking inside.
#[verifier::external_type_specification]
#[verifier::external_body]
pub struct ExFromHexError(rustc_hex::FromHexError);

/// `hex::encode`: every byte becomes two lowercase digits, the high nibble
/// first, so the text is twice as long as the input.
#[verifier::external_body]
fn hex_encode(bytes: &[u8]) -> (text: String)
    ensures
        text@ == hex_text(bytes@),
{
    hex::encode(bytes)
}

/// `rustc_hex::FromHex::from_hex` on a `str`: a text made of hexadecimal
/// digits only is read two digits at a time, the high nibble first; with an
/// even number of digits it gives the bytes, with an odd number an error.
/// Nothing is claimed of a text that holds any other character.
#[verifier::external_body]
fn hex_decode(text: &str) -> (r: Result<Vec<u8>, rustc_hex::FromHexError>)
    ensures
        match r {
            Ok(bytes) => all_hex_digits(text@) ==> text@.len() % 2 == 0 && bytes@ == hex_bytes(
                text@,
            ),
            Err(_) => all_hex_digits(text@) ==> text@.len() % 2 == 1,
        },
{
    rustc_hex::FromHex::from_hex(text)
}

/// Whether the byte is the ASCII code of a hexadecimal digit.
fn is_hex_code(b: u8) -> (r: bool)
    ensures
        r == (hex_value(b as char) is Some),
{
    (b >= 48 && b <= 57) || (b >= 97 && b <= 102) || (b >= 65 && b <= 70)
}

/// Writes bytes as lowercase hexadecimal text.
pub fn encode_hex(bytes: &[u8]) -> (text: String)
    ensures
        text@ == hex_text(bytes@),
        text@.len() == 2 * bytes@.len(),
        all_lowercase_hex(text@),
{
    proof {
        lemma_hex_text_shape(bytes@);
    }
    hex_encode(bytes)
}

/// Reads hexadecimal text as exactly `len` bytes.
pub fn decode_hex(text: &str, len: usize) -> (r: Result<Vec<u8>, FormatError>)
    ensures
        match r {
            Ok(bytes) => hex_decoding(text@, len as nat) == Ok::<Seq<u8>, FormatError>(bytes@),
            Err(e) => hex_decoding(text@, len as nat) == Err::<Seq<u8>, FormatError>(e),
        },
{
    broadcast use is_ascii_spec_bytes;

    if !text.is_ascii() {
        proof {
            let i = choose|i: int| 0 <= i < text@.len() && !('\0' <= #[trigger] text@[i] <= '\u{7f}');
            assert(hex_value(text@[i]) is None);
        }
        return Err(FormatError::InvalidHexCharacter);
    }
    let codes: &[u8] = text.as_bytes();
    let n: usize = codes.len();
    assert(n == text@.len());
    let mut i: usize = 0;
    while i < n
        invariant
            i <= n,
            n == text@.len(),
            n == codes@.len(),
            is_ascii(text),
            forall|j: int| 0 <= j < n ==> codes@[j] == #[trigger] text@[j] as u8,
            forall|j: int| 0 <= j < i ==> (#[trigger] hex_value(text@[j])) is Some,
        decreases n - i,
    {
        let b: u8 = codes[i];
        assert(b as char == text@[i as int]);
        if !is_hex_code(b) {
            return Err(FormatError::InvalidHexCharacter);
        }
        i = i + 1;
    }
    if n % 2 == 1 {
        return Err(FormatError::OddLength);
    }
    if n / 2 != len {
        return Err(FormatError::WrongLength);
    }
    match hex_decode(text) {
        Ok(bytes) => Ok(bytes),
        Err(_) => Err(FormatError::InvalidHexCharacter),
    }
}

/// The text of a byte sequence has two characters per byte, all of them
/// digits or lowercase letters `a` to `f`.
pub proof fn lemma_hex_text_shape(bytes: Seq<u8>)
    ensures
        hex_text(bytes).len() == 2 * bytes.len(),
        all_lowercase_hex(hex_text(bytes)),
        all_hex_digits(hex_text(bytes)),
{
    assert forall|i: int| 0 <= i < hex_text(bytes).len() implies ('0' <= #[trigger] hex_text(
        bytes,
    )[i] <= '9' || 'a' <= hex_text(bytes)[i] <= 'f') && hex_value(hex_text(bytes)[i]) is Some by {
        let b = bytes[i / 2] as int;
        assert(0 <= b / 16 < 16 && 0 <= b % 16 < 16);
    }
}

/// Reading the text of a byte sequence as an identifier of that many bytes
/// gives the sequence back.
pub proof fn lemma_hex_round_trip(bytes: Seq<u8>)
    ensures
        hex_decoding(hex_text(bytes), bytes.len()) == Ok::<Seq<u8>, FormatError>(bytes),
{
    lemma_hex_text_shape(bytes);
    let text = hex_text(bytes);
    assert forall|i: int| 0 <= i < bytes.len() implies hex_bytes(text)[i] == bytes[i] by {
        let b = bytes[i] as int;
        assert((2 * i) / 2 == i && (2 * i) % 2 == 0);
        assert((2 * i + 1) / 2 == i && (2 * i + 1) % 2 == 1);
        assert(text[2 * i] == hex_digit(b / 16));
        assert(text[2 * i + 1] == hex_digit(b % 16));
        assert(0 <= b / 16 < 16 && 0 <= b % 16 < 16);
        assert(hex_value(hex_digit(b / 16)) == Some(b / 16));
        assert(hex_value(hex_digit(b % 16)) == Some(b % 16));
        assert((b / 16) * 16 + b % 16 == b);
    }
    assert(hex_bytes(text) =~= bytes);
}

/// A text is read as an identifier of `len` bytes only if it has exactly
/// `2 * len` characters, and what is read then has `len` bytes.
pub proof fn lemma_hex_decoding_length(text: Seq<char>, len: nat)
    ensures
        hex_decoding(text, len) matches Ok(bytes) ==> text.len() == 2 * len && bytes.len() == len,
        text.len() != 2 * len ==> hex_decoding(text, len) is Err,
{
}

} // verus!
