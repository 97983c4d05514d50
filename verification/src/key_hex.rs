//! Public keys as hexadecimal text, the form in which they are stored.

use crate::curve::{is_public_key, sec1_compressed};
use crate::error::LedgerError;
use crate::hexfmt::{
    decode_hex, hex_text, is_hex, lemma_hex_round_trip, lemma_hex_text_is_ascii, unhex,
};
use crate::transaction::PublicKey;
use vstd::prelude::*;
use vstd::string::StringSliceAdditionalSpecFns;
use vstd::utf8::encode_utf8;

verus! {

/// The key that hexadecimal text stands for, or `None` where the text is
/// not hexadecimal or its bytes encode no key.
pub open spec fn key_of_text(text: Seq<u8>) -> Option<Seq<u8>> {
    if is_hex(text) {
        sec1_compressed(unhex(text))
    } else {
        None
    }
}

/// The compressed encoding of a key in hexadecimal.
pub fn serialize(key: &PublicKey) -> (text: String)
    ensures
        text@ == hex_text(key@),
{
    key.to_hex()
}

/// Reads a key from the hexadecimal text of any SEC1 encoding of its
/// point. Fails exactly where the text is not hexadecimal or its bytes
/// encode no key.
pub fn deserialize(hex_str: &str) -> (res: Result<PublicKey, LedgerError>)
    ensures
        match res {
            Ok(key) => key_of_text(hex_str.spec_bytes()) == Some(key@),
            Err(e) => e == LedgerError::KeyDecodeError && key_of_text(hex_str.spec_bytes()) is None,
        },
{
    match decode_hex(hex_str.as_bytes()) {
        Ok(bytes) => PublicKey::from_sec1_bytes(bytes.as_slice()),
        Err(_) => Err(LedgerError::KeyDecodeError),
    }
}

/// Text written for a key reads back as that key.
pub proof fn lemma_key_text_round_trip(key: Seq<u8>)
    requires
        is_public_key(key),
    ensures
        key_of_text(encode_utf8(hex_text(key))) == Some(key),
{
    lemma_hex_text_is_ascii(key);
    lemma_hex_round_trip(key);
}

} // verus!
