//! Signatures as hexadecimal text, the form in which they are stored. A
//! reward carries no signature, and none is stored for it.

use crate::curve::signature_in_range;
use crate::error::LedgerError;
use crate::hexfmt::{
    decode_hex, hex_text, is_hex, lemma_hex_round_trip, lemma_hex_text_is_ascii, unhex,
};
use crate::transaction::{optional_signature_view, Signature};
use vstd::prelude::*;
use vstd::string::StringSliceAdditionalSpecFns;
use vstd::utf8::encode_utf8;

verus! {

/// The signature that hexadecimal text stands for, or `None` where the
/// text is not hexadecimal or its bytes are no signature.
pub open spec fn signature_of_text(text: Seq<u8>) -> Option<Seq<u8>> {
    if is_hex(text) && signature_in_range(unhex(text)) {
        Some(unhex(text))
    } else {
        None
    }
}

/// The 64 bytes of a signature in hexadecimal, or `None` where there is no
/// signature.
pub fn serialize(sig: &Option<Signature>) -> (text: Option<String>)
    ensures
        match (optional_signature_view(*sig), text) {
            (Some(bytes), Some(t)) => t@ == hex_text(bytes),
            (None, None) => true,
            _ => false,
        },
{
    match sig {
        Some(s) => Some(s.to_hex()),
        None => None,
    }
}

/// Reads a signature from hexadecimal text, and no signature from no text.
/// Fails exactly where there is text that is not hexadecimal or whose bytes
/// are no signature.
pub fn deserialize(opt_hex_str: Option<&str>) -> (res: Result<Option<Signature>, LedgerError>)
    ensures
        match opt_hex_str {
            None => res == Ok::<Option<Signature>, LedgerError>(None),
            Some(hex_str) => match res {
                Ok(Some(signature)) => signature_of_text(hex_str.spec_bytes()) == Some(
                    signature@,
                ),
                Ok(None) => false,
                Err(e) => e == LedgerError::SignatureDecodeError && signature_of_text(
                    hex_str.spec_bytes(),
                ) is None,
            },
        },
{
    match opt_hex_str {
        Some(hex_str) => match decode_hex(hex_str.as_bytes()) {
            Ok(bytes) => match Signature::from_bytes(bytes.as_slice()) {
                Ok(signature) => Ok(Some(signature)),
                Err(e) => Err(e),
            },
            Err(_) => Err(LedgerError::SignatureDecodeError),
        },
        None => Ok(None),
    }
}

/// Text written for a signature reads back as that signature.
pub proof fn lemma_signature_text_round_trip(signature: Seq<u8>)
    requires
        signature_in_range(signature),
    ensures
        signature_of_text(encode_utf8(hex_text(signature))) == Some(signature),
{
    lemma_hex_text_is_ascii(signature);
    lemma_hex_round_trip(signature);
}

} // verus!
