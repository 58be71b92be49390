//! Guest bytes in transit: a two-character scheme prefix followed by
//! hexadecimal digits, two for each byte of the block-compressed guest.

use vstd::prelude::*;
use vstd::slice::slice_subrange;

verus! {

#[verifier::external_type_specification]
#[verifier::external_body]
pub struct ExFromHexError(hex::FromHexError);

/// The length of the scheme prefix.
pub const PREFIX_LENGTH: usize = 2;

/// The largest size that a guest may decompress to.
pub const MAX_DECOMPRESSED_SIZE: usize = 1_000_000;

/// Why a payload could not be decoded.
#[derive(Clone, Copy, Debug, PartialEq, Eq, Structural)]
pub enum PayloadError {
    /// The payload is shorter than the scheme prefix.
    MissingPrefix,
    /// The digits do not pair up.
    OddLength,
    /// A character after the prefix is not a hexadecimal digit.
    InvalidHexCharacter,
}

/// The value of a hexadecimal digit, upper or lower case.
pub open spec fn spec_hex_value(digit: u8) -> Option<int> {
    if 48 <= digit <= 57 {
        Some(digit - 48)
    } else if 97 <= digit <= 102 {
        Some(digit - 87)
    } else if 65 <= digit <= 70 {
        Some(digit - 55)
    } else {
        None
    }
}

/// Whether a text is made of hexadecimal digits, in pairs.
pub open spec fn spec_is_hex(text: Seq<u8>) -> bool {
    text.len() % 2 == 0 && forall|i: int| 0 <= i < text.len() ==> spec_hex_value(#[trigger] text[i]).is_some()
}

/// The bytes that a hexadecimal text stands for: each pair of digits
/// is one byte, high digit first.
pub open spec fn spec_hex_bytes(text: Seq<u8>) -> Seq<u8> {
    Seq::new(
        text.len() / 2,
        |i: int| (16 * spec_hex_value(text[2 * i]).unwrap() + spec_hex_value(text[2 * i + 1]).unwrap()) as u8,
    )
}

/// What decoding a payload comes to.
pub open spec fn spec_decode_payload(payload: Seq<u8>) -> Result<Seq<u8>, PayloadError> {
    if payload.len() < 2 {
        Err(PayloadError::MissingPrefix)
    } else if payload.len() % 2 != 0 {
        Err(PayloadError::OddLength)
    } else if !spec_is_hex(payload.skip(2)) {
        Err(PayloadError::InvalidHexCharacter)
    } else {
        Ok(spec_hex_bytes(payload.skip(2)))
    }
}

/// `hex::decode`: succeeds on an even number of hexadecimal digits, of
/// either case, and then returns one byte for each pair, the first
/// digit of a pair being the high one.
#[verifier::external_body]
fn hex_decode(text: &[u8]) -> (decoded: Result<Vec<u8>, hex::FromHexError>)
    ensures
        decoded.is_ok() == spec_is_hex(text@),
        decoded matches Ok(bytes) ==> bytes@ == spec_hex_bytes(text@),
{
    hex::decode(text)
}

/// Whether a command-line argument is a payload rather than the name
/// of a file: it is one if it starts with `0x`.
pub fn is_inline_payload(argument: &[u8]) -> (inline: bool)
    ensures
        inline == (argument.len() >= 2 && argument[0] == 48 && argument[1] == 120),
{
    argument.len() >= PREFIX_LENGTH && argument[0] == 48 && argument[1] == 120
}

/// Strips the scheme prefix from a payload and decodes the
/// hexadecimal digits that follow it.
pub fn decode_payload(payload: &[u8]) -> (decoded: Result<Vec<u8>, PayloadError>)
    ensures
        match decoded {
            Ok(bytes) => spec_decode_payload(payload@) == Ok::<Seq<u8>, PayloadError>(bytes@),
            Err(error) => spec_decode_payload(payload@) == Err::<Seq<u8>, PayloadError>(error),
        },
{
    if payload.len() < PREFIX_LENGTH {
        return Err(PayloadError::MissingPrefix);
    }
    let digits = slice_subrange(payload, PREFIX_LENGTH, payload.len());
    proof {
        assert(digits@ =~= payload@.skip(2));
    }
    match hex_decode(digits) {
        Ok(bytes) => Ok(bytes),
        Err(_) => if payload.len() % 2 != 0 {
            Err(PayloadError::OddLength)
        } else {
            Err(PayloadError::InvalidHexCharacter)
        },
    }
}

} // verus!
