use vstd::prelude::*;
use vstd::string::StringSliceAdditionalSpecFns;

verus! {

/// Why a hex-encoded key was refused.
#[derive(Clone, Copy, Debug, PartialEq, Eq, Structural)]
pub enum KeyError {
    /// The byte at `index` is no hex digit.
    InvalidHexCharacter { c: char, index: usize },
    /// The text has an odd number of bytes.
    OddLength,
    /// The text does not fit a container of fixed size.
    InvalidStringLength,
}

/// The value of a hex digit, either case.
pub open spec fn hex_value(b: u8) -> Option<u8> {
    if 0x30 <= b <= 0x39 {
        Some((b - 0x30) as u8)
    } else if 0x61 <= b <= 0x66 {
        Some((b - 0x61 + 10) as u8)
    } else if 0x41 <= b <= 0x46 {
        Some((b - 0x41 + 10) as u8)
    } else {
        None
    }
}

pub open spec fn is_hex_digit(b: u8) -> bool {
    hex_value(b) is Some
}

/// The bytes that an even-length string of hex digits encodes, two digits
/// each, the high half first.
pub open spec fn hex_decoded(s: Seq<u8>) -> Seq<u8> {
    Seq::new(
        s.len() / 2,
        |i: int| (16 * hex_value(s[2 * i]).unwrap() + hex_value(s[2 * i + 1]).unwrap()) as u8,
    )
}

/// Whether `r` is what decoding the hex text `s` gives: its bytes when the
/// length is even and every byte is a digit, else the error for an odd
/// length, else the error for the first byte that is no digit.
pub open spec fn is_decoding_of(s: Seq<u8>, r: Result<Vec<u8>, KeyError>) -> bool {
    match r {
        Ok(bytes) => {
            &&& s.len() % 2 == 0
            &&& forall|i: int| 0 <= i < s.len() ==> is_hex_digit(#[trigger] s[i])
            &&& bytes@ == hex_decoded(s)
        },
        Err(KeyError::OddLength) => s.len() % 2 == 1,
        Err(KeyError::InvalidHexCharacter { c, index }) => {
            &&& s.len() % 2 == 0
            &&& index < s.len()
            &&& !is_hex_digit(s[index as int])
            &&& forall|j: int| 0 <= j < index ==> is_hex_digit(#[trigger] s[j])
            &&& c == s[index as int] as char
        },
        Err(KeyError::InvalidStringLength) => false,
    }
}

/// Relies on hex::decode (`FromHex for Vec<u8>`): an odd length is refused,
/// else the first byte that is no digit, else each pair of digits gives one
/// byte, high half first.
#[verifier::external_body]
fn decode_hex(s: &[u8]) -> (r: Result<Vec<u8>, KeyError>)
    ensures
        is_decoding_of(s@, r),
{
    match hex::decode(s) {
        Ok(bytes) => Ok(bytes),
        Err(hex::FromHexError::InvalidHexCharacter { c, index }) => Err(
            KeyError::InvalidHexCharacter { c, index },
        ),
        Err(hex::FromHexError::OddLength) => Err(KeyError::OddLength),
        Err(hex::FromHexError::InvalidStringLength) => Err(KeyError::InvalidStringLength),
    }
}

/// Decodes a DHT key from its hex text.
pub fn parse_key(hex: &str) -> (r: Result<Vec<u8>, KeyError>)
    ensures
        is_decoding_of(hex.spec_bytes(), r),
{
    decode_hex(hex.as_bytes())
}

} // verus!
