//! The ways in which a ledger operation can fail.

use vstd::prelude::*;

verus! {

/// Failure of a ledger operation.
#[derive(Debug, Clone, Copy, PartialEq, Eq, Structural)]
pub enum LedgerError {
    /// A transaction carries a bad or missing signature, or a signature
    /// without a source.
    InvalidTransaction,
    /// Text or bytes do not describe a key on the curve.
    KeyDecodeError,
    /// Text or bytes do not describe a signature.
    SignatureDecodeError,
    /// No nonce from the block's starting nonce upwards yields a hash that
    /// meets the block's difficulty.
    NonceSpaceExhausted,
}

/// The sentence for a transaction that was not admitted.
pub open spec fn invalid_transaction_text() -> Seq<char> {
    "Transaction has a bad signature. It's probably fraudulent."@
}

/// The sentence for bytes or text that give no key.
pub open spec fn key_decode_text() -> Seq<char> {
    "This doesn't look like a valid key."@
}

/// The sentence for bytes or text that give no signature.
pub open spec fn signature_decode_text() -> Seq<char> {
    "This doesn't look like a valid signature."@
}

/// The sentence for a block that no nonce solves.
pub open spec fn nonce_space_text() -> Seq<char> {
    "No nonce gives the block a hash that meets its difficulty."@
}

impl LedgerError {
    /// A sentence that says what went wrong.
    pub fn message(&self) -> (text: String)
        ensures
            text@ == match *self {
                LedgerError::InvalidTransaction => invalid_transaction_text(),
                LedgerError::KeyDecodeError => key_decode_text(),
                LedgerError::SignatureDecodeError => signature_decode_text(),
                LedgerError::NonceSpaceExhausted => nonce_space_text(),
            },
    {
        match self {
            LedgerError::InvalidTransaction => {
                "Transaction has a bad signature. It's probably fraudulent.".to_owned()
            },
            LedgerError::KeyDecodeError => "This doesn't look like a valid key.".to_owned(),
            LedgerError::SignatureDecodeError => {
                "This doesn't look like a valid signature.".to_owned()
            },
            LedgerError::NonceSpaceExhausted => {
                "No nonce gives the block a hash that meets its difficulty.".to_owned()
            },
        }
    }
}

} // verus!
