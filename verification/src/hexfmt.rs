//! Hexadecimal text, written and read by the `hex` crate.

use vstd::prelude::*;
use vstd::utf8::{encode_utf8, is_ascii_chars, is_ascii_chars_encode_utf8};

verus! {

/// ASCII code of the lowercase hexadecimal digit that stands for `n`,
/// for `0 <= n < 16`.
pub open spec fn hex_digit(n: int) -> u8 {
    if n < 10 {
        (48 + n) as u8
    } else {
        (87 + n) as u8
    }
}

/// The hexadecimal digits of a byte string as ASCII codes: two lowercase
/// digits per byte, the high half first.
pub open spec fn hex_bytes(bytes: Seq<u8>) -> Seq<u8> {
    Seq::new(
        2 * bytes.len(),
        |i: int|
            if i % 2 == 0 {
                hex_digit(bytes[i / 2] as int / 16)
            } else {
                hex_digit(bytes[i / 2] as int % 16)
            },
    )
}

/// The hexadecimal digits of a byte string as characters.
pub open spec fn hex_text(bytes: Seq<u8>) -> Seq<char> {
    Seq::new(2 * bytes.len(), |i: int| hex_bytes(bytes)[i] as char)
}

/// The value of a hexadecimal digit given by its ASCII code, in either
/// case; `None` for any other byte.
pub open spec fn hex_value(c: u8) -> Option<int> {
    if 48 <= c <= 57 {
        Some(c - 48)
    } else if 97 <= c <= 102 {
        Some(c - 87)
    } else if 65 <= c <= 70 {
        Some(c - 55)
    } else {
        None
    }
}

/// Whether `text` is an even number of hexadecimal digits.
pub open spec fn is_hex(text: Seq<u8>) -> bool {
    &&& text.len() % 2 == 0
    &&& forall|i: int| 0 <= i < text.len() ==> (#[trigger] hex_value(text[i])) is Some
}

/// The bytes that hexadecimal text stands for, two digits per byte.
pub open spec fn unhex(text: Seq<u8>) -> Seq<u8> {
    Seq::new(
        text.len() / 2,
        |i: int| (16 * hex_value(text[2 * i])->0 + hex_value(text[2 * i + 1])->0) as u8,
    )
}

/// Whether the first `count` characters of `text` exist and are all `'0'`.
pub open spec fn has_leading_zeros(text: Seq<char>, count: nat) -> bool {
    &&& count <= text.len()
    &&& forall|i: int| 0 <= i < count ==> text[i] == '0'
}

#[verifier::external_type_specification]
#[verifier::external_body]
pub struct ExFromHexError(hex::FromHexError);

/// Calls `hex::encode`. Assumed: the result holds two lowercase digits for
/// each input byte, in order, the high half of the byte first.
#[verifier::external_body]
pub(crate) fn encode_hex(bytes: &[u8]) -> (text: String)
    ensures
        text@ == hex_text(bytes@),
{
    hex::encode(bytes)
}

/// Calls `hex::decode`. Assumed: it succeeds exactly on an even number of
/// hexadecimal digits of either case, and then returns one byte for each
/// pair of digits, in order.
#[verifier::external_body]
pub(crate) fn decode_hex(text: &[u8]) -> (res: Result<Vec<u8>, hex::FromHexError>)
    ensures
        res is Ok <==> is_hex(text@),
        res matches Ok(bytes) ==> bytes@ == unhex(text@),
{
    hex::decode(text)
}

/// Hexadecimal text is ASCII, so its UTF-8 encoding is the digits
/// themselves.
pub proof fn lemma_hex_text_is_ascii(bytes: Seq<u8>)
    ensures
        is_ascii_chars(hex_text(bytes)),
        encode_utf8(hex_text(bytes)) == hex_bytes(bytes),
{
    is_ascii_chars_encode_utf8(hex_text(bytes));
}

/// Reading back what was written gives the bytes that were written.
pub proof fn lemma_hex_round_trip(bytes: Seq<u8>)
    ensures
        is_hex(hex_bytes(bytes)),
        unhex(hex_bytes(bytes)) == bytes,
{
}

/// Decides, on the bytes of a digest, whether its hexadecimal text starts
/// with `count` zeros.
pub fn hex_starts_with_zeros(bytes: &[u8], count: usize) -> (res: bool)
    ensures
        res == has_leading_zeros(hex_text(bytes@), count as nat),
{
    if bytes.len() < count / 2 || (bytes.len() == count / 2 && count % 2 == 1) {
        return false;
    }
    let mut i: usize = 0;
    while i < count
        invariant
            i <= count,
            count <= 2 * bytes@.len(),
            forall|j: int| 0 <= j < i ==> hex_text(bytes@)[j] == '0',
        decreases count - i,
    {
        let b = bytes[i / 2];
        let half = if i % 2 == 0 {
            b / 16
        } else {
            b % 16
        };
        if half != 0 {
            assert(hex_text(bytes@)[i as int] != '0');
            return false;
        }
        i += 1;
    }
    true
}

} // verus!
