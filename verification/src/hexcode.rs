//! Program texts: bytes written as pairs of hexadecimal digits.

use crate::error::VmError;
use hex::FromHexError;
use vstd::prelude::*;

verus! {

#[verifier::external_type_specification]
#[verifier::external_body]
pub struct ExFromHexError(hex::FromHexError);

/// The value of a hexadecimal digit, of either case.
pub open spec fn digit_value(c: char) -> Option<int> {
    if '0' <= c <= '9' {
        Some(c as int - '0' as int)
    } else if 'a' <= c <= 'f' {
        Some(c as int - 'a' as int + 10)
    } else if 'A' <= c <= 'F' {
        Some(c as int - 'A' as int + 10)
    } else {
        None
    }
}

/// Whether `text` is an even number of hexadecimal digits.
pub open spec fn is_hex_text(text: Seq<char>) -> bool {
    text.len() % 2 == 0 && forall|i: int| 0 <= i < text.len() ==> digit_value(text[i]) is Some
}

/// The bytes that `text` spells, two digits a byte, the high digit first.
pub open spec fn hex_bytes(text: Seq<char>) -> Seq<u8> {
    Seq::new(
        text.len() / 2,
        |i: int| (16 * digit_value(text[2 * i]).unwrap() + digit_value(text[2 * i + 1]).unwrap()) as u8,
    )
}

/// `hex::decode` on a string. It succeeds exactly on an even number of
/// hexadecimal digits, and then gives one byte for each pair of them, the
/// first digit of a pair being the high half. A character outside ASCII
/// makes it fail, as its bytes are no digits.
#[verifier::external_body]
fn hex_decode(text: &str) -> (decoded: Result<Vec<u8>, FromHexError>)
    ensures
        decoded is Ok <==> is_hex_text(text@),
        decoded matches Ok(bytes) ==> bytes@ == hex_bytes(text@),
{
    hex::decode(text)
}

/// The bytes of a program text, or `BadHexProgram` if the text is not an
/// even number of hexadecimal digits.
pub fn decode_program(text: &str) -> (decoded: Result<Vec<u8>, VmError>)
    ensures
        match decoded {
            Ok(bytes) => is_hex_text(text@) && bytes@ == hex_bytes(text@),
            Err(error) => !is_hex_text(text@) && error == VmError::BadHexProgram,
        },
{
    match hex_decode(text) {
        Ok(bytes) => Ok(bytes),
        Err(_) => Err(VmError::BadHexProgram),
    }
}

} // verus!
