//! Accounts, signatures and transfers of value.

use crate::canon::{decimal, null, push_decimal, push_null, push_quoted, quoted};
use crate::curve::{
    compress_public_key, ecdsa_signature, ecdsa_verifies, is_public_key, sec1_compressed,
    signature_bytes_in_range, signature_in_range, verify_digest, COMPRESSED_LEN,
};
use crate::error::LedgerError;
use crate::hexfmt::{encode_hex, hex_bytes, hex_text, lemma_hex_text_is_ascii};
use crate::sha::{sha256, sha256_digest, DIGEST_LEN};
use crate::wallet::Wallet;
use vstd::prelude::*;
use vstd::slice::slice_to_vec;
use vstd::utf8::encode_utf8;

verus! {

/// An account: a point of the curve other than the identity, held as the 33
/// bytes of its compressed encoding. Two keys are equal when these bytes
/// are.
#[derive(Debug, Hash)]
pub struct PublicKey {
    bytes: Vec<u8>,
}

impl View for PublicKey {
    type V = Seq<u8>;

    closed spec fn view(&self) -> Seq<u8> {
        self.bytes@
    }
}

impl PublicKey {
    #[verifier::type_invariant]
    spec fn well_formed(&self) -> bool {
        &&& self.bytes@.len() == COMPRESSED_LEN
        &&& is_public_key(self.bytes@)
    }

    /// Reads a key from any SEC1 encoding of its point. Fails exactly where
    /// the bytes encode no point that can be a public key.
    pub fn from_sec1_bytes(bytes: &[u8]) -> (res: Result<PublicKey, LedgerError>)
        ensures
            match res {
                Ok(key) => sec1_compressed(bytes@) == Some(key@),
                Err(e) => e == LedgerError::KeyDecodeError && sec1_compressed(bytes@) is None,
            },
    {
        match compress_public_key(bytes) {
            Ok(point) => Ok(PublicKey::from_compressed(point)),
            Err(_) => Err(LedgerError::KeyDecodeError),
        }
    }

    /// Wraps bytes that are known to be the compressed encoding of a key.
    pub(crate) fn from_compressed(point: Vec<u8>) -> (key: PublicKey)
        requires
            point@.len() == COMPRESSED_LEN,
            is_public_key(point@),
        ensures
            key@ == point@,
    {
        PublicKey { bytes: point }
    }

    /// The compressed encoding of the key.
    pub fn as_bytes(&self) -> (bytes: &[u8])
        ensures
            bytes@ == self@,
            bytes@.len() == COMPRESSED_LEN,
            is_public_key(self@),
    {
        proof {
            use_type_invariant(self);
        }
        self.bytes.as_slice()
    }

    /// The compressed encoding of the key in hexadecimal.
    pub fn to_hex(&self) -> (text: String)
        ensures
            text@ == hex_text(self@),
    {
        encode_hex(self.bytes.as_slice())
    }

    /// Whether `signature` is a signature on `digest` by the owner of this
    /// key. False on any mismatch.
    pub fn verify_prehashed(&self, digest: &[u8], signature: &Signature) -> (res: bool)
        ensures
            res == ecdsa_verifies(self@, digest@, signature@),
    {
        verify_digest(self.bytes.as_slice(), digest, signature.as_bytes())
    }
}

impl Clone for PublicKey {
    fn clone(&self) -> (res: Self)
        ensures
            res@ == self@,
    {
        proof {
            use_type_invariant(self);
        }
        PublicKey { bytes: self.bytes.clone() }
    }
}

impl PartialEq for PublicKey {
    fn eq(&self, other: &Self) -> (res: bool) {
        let res = self.bytes == other.bytes;
        proof {
            if res {
                assert(self.bytes@ =~= other.bytes@);
            }
        }
        res
    }
}

impl Eq for PublicKey {

}

impl vstd::std_specs::cmp::PartialEqSpecImpl for PublicKey {
    open spec fn obeys_eq_spec() -> bool {
        true
    }

    open spec fn eq_spec(&self, other: &Self) -> bool {
        self@ == other@
    }
}

/// A signature: the scalars `r` and `s`, each in range, held as the 64
/// bytes of `r` followed by `s`.
#[derive(Debug)]
pub struct Signature {
    bytes: Vec<u8>,
}

impl View for Signature {
    type V = Seq<u8>;

    closed spec fn view(&self) -> Seq<u8> {
        self.bytes@
    }
}

impl Signature {
    #[verifier::type_invariant]
    spec fn well_formed(&self) -> bool {
        signature_in_range(self.bytes@)
    }

    /// Reads a signature from its 64 bytes. Fails exactly where the bytes
    /// are not 64, or `r` or `s` is out of range.
    pub fn from_bytes(bytes: &[u8]) -> (res: Result<Signature, LedgerError>)
        ensures
            match res {
                Ok(signature) => signature@ == bytes@ && signature_in_range(bytes@),
                Err(e) => e == LedgerError::SignatureDecodeError && !signature_in_range(bytes@),
            },
    {
        if signature_bytes_in_range(bytes) {
            Ok(Signature::from_checked(slice_to_vec(bytes)))
        } else {
            Err(LedgerError::SignatureDecodeError)
        }
    }

    /// Wraps bytes that are known to be a signature.
    pub(crate) fn from_checked(bytes: Vec<u8>) -> (signature: Signature)
        requires
            signature_in_range(bytes@),
        ensures
            signature@ == bytes@,
    {
        Signature { bytes }
    }

    /// The 64 bytes of the signature.
    pub fn as_bytes(&self) -> (bytes: &[u8])
        ensures
            bytes@ == self@,
            signature_in_range(self@),
    {
        proof {
            use_type_invariant(self);
        }
        self.bytes.as_slice()
    }

    /// The 64 bytes of the signature in hexadecimal.
    pub fn to_hex(&self) -> (text: String)
        ensures
            text@ == hex_text(self@),
    {
        encode_hex(self.bytes.as_slice())
    }
}

impl Clone for Signature {
    fn clone(&self) -> (res: Self)
        ensures
            res@ == self@,
    {
        proof {
            use_type_invariant(self);
        }
        Signature { bytes: self.bytes.clone() }
    }
}

impl PartialEq for Signature {
    fn eq(&self, other: &Self) -> (res: bool) {
        let res = self.bytes == other.bytes;
        proof {
            if res {
                assert(self.bytes@ =~= other.bytes@);
            }
        }
        res
    }
}

impl Eq for Signature {

}

impl vstd::std_specs::cmp::PartialEqSpecImpl for Signature {
    open spec fn obeys_eq_spec() -> bool {
        true
    }

    open spec fn eq_spec(&self, other: &Self) -> bool {
        self@ == other@
    }
}

/// What a transaction says: keys and signature as byte strings.
pub struct TransactionView {
    pub source: Option<Seq<u8>>,
    pub destination: Seq<u8>,
    pub amount: u64,
    pub signature: Option<Seq<u8>>,
}

/// A byte string in hexadecimal between double quotes, or `null` where it
/// is absent.
pub open spec fn optional_hex(bytes: Option<Seq<u8>>) -> Seq<u8> {
    match bytes {
        Some(b) => quoted(hex_bytes(b)),
        None => null(),
    }
}

/// The name of an object's field, in double quotes and followed by a colon.
pub open spec fn label(name: Seq<char>) -> Seq<u8> {
    quoted(encode_utf8(name)) + seq![':' as u8]
}

/// The text that a transfer is signed over: the array of source,
/// destination and amount, in this order. The signature is no part of it.
pub open spec fn transfer_text(source: Option<Seq<u8>>, destination: Seq<u8>, amount: u64) -> Seq<
    u8,
> {
    seq!['[' as u8] + optional_hex(source) + seq![',' as u8] + quoted(hex_bytes(destination))
        + seq![',' as u8] + decimal(amount as nat) + seq![']' as u8]
}

/// The digest that a transfer is signed over.
pub open spec fn transfer_digest(source: Option<Seq<u8>>, destination: Seq<u8>, amount: u64) -> Seq<
    u8,
> {
    sha256_digest(transfer_text(source, destination, amount))
}

impl TransactionView {
    /// The digest that the signature is made and checked over.
    pub open spec fn digest(self) -> Seq<u8> {
        transfer_digest(self.source, self.destination, self.amount)
    }

    /// A reward: no source and no signature.
    pub open spec fn is_coinbase(self) -> bool {
        self.source is None && self.signature is None
    }

    /// A transaction with a source is valid when its signature verifies
    /// under the source, on the digest of source, destination and amount. A
    /// reward is valid. A source without a signature, or a signature
    /// without a source, is not.
    pub open spec fn is_valid(self) -> bool {
        match (self.source, self.signature) {
            (Some(source), Some(signature)) => ecdsa_verifies(source, self.digest(), signature),
            (None, None) => true,
            _ => false,
        }
    }

    /// The object that stands for the transaction in a block's hashed text:
    /// source, destination, amount and signature, in this order.
    pub open spec fn json(self) -> Seq<u8> {
        seq!['{' as u8] + label("source"@) + optional_hex(self.source) + seq![',' as u8] + label(
            "destination"@,
        ) + quoted(hex_bytes(self.destination)) + seq![',' as u8] + label("amount"@) + decimal(
            self.amount as nat,
        ) + seq![',' as u8] + label("signature"@) + optional_hex(self.signature) + seq!['}' as u8]
    }
}

/// The byte string of a key that may be absent.
pub open spec fn optional_key_view(key: Option<PublicKey>) -> Option<Seq<u8>> {
    match key {
        Some(k) => Some(k@),
        None => None,
    }
}

/// The byte string of a signature that may be absent.
pub open spec fn optional_signature_view(signature: Option<Signature>) -> Option<Seq<u8>> {
    match signature {
        Some(s) => Some(s@),
        None => None,
    }
}

/// A transfer of `amount` from `source` to `destination`, or a reward where
/// there is no source.
#[derive(Debug)]
pub struct Transaction {
    pub source: Option<PublicKey>,
    pub destination: PublicKey,
    pub amount: u64,
    pub signature: Option<Signature>,
}

impl View for Transaction {
    type V = TransactionView;

    open spec fn view(&self) -> TransactionView {
        TransactionView {
            source: optional_key_view(self.source),
            destination: self.destination@,
            amount: self.amount,
            signature: optional_signature_view(self.signature),
        }
    }
}

/// Appends a byte string in hexadecimal between double quotes.
fn push_hex(out: &mut Vec<u8>, bytes: &[u8])
    ensures
        final(out)@ == old(out)@ + quoted(hex_bytes(bytes@)),
{
    let text = encode_hex(bytes);
    proof {
        lemma_hex_text_is_ascii(bytes@);
    }
    push_quoted(out, text.as_str().as_bytes());
}

/// Appends a key in hexadecimal, or `null`.
fn push_optional_key(out: &mut Vec<u8>, key: &Option<PublicKey>)
    ensures
        final(out)@ == old(out)@ + optional_hex(optional_key_view(*key)),
{
    match key {
        Some(k) => push_hex(out, k.as_bytes()),
        None => push_null(out),
    }
}

/// Appends a signature in hexadecimal, or `null`.
fn push_optional_signature(out: &mut Vec<u8>, signature: &Option<Signature>)
    ensures
        final(out)@ == old(out)@ + optional_hex(optional_signature_view(*signature)),
{
    match signature {
        Some(s) => push_hex(out, s.as_bytes()),
        None => push_null(out),
    }
}

/// Appends the name of a field and its colon.
fn push_label(out: &mut Vec<u8>, name: &str)
    ensures
        final(out)@ == old(out)@ + label(name@),
{
    push_quoted(out, name.as_bytes());
    out.push(':' as u8);
}

/// Computes the digest that a transfer is signed over.
fn digest_of(source: &Option<PublicKey>, destination: &PublicKey, amount: u64) -> (digest: Vec<u8>)
    ensures
        digest@ == transfer_digest(optional_key_view(*source), destination@, amount),
        digest@.len() == DIGEST_LEN,
{
    let mut text: Vec<u8> = Vec::new();
    text.push('[' as u8);
    push_optional_key(&mut text, source);
    text.push(',' as u8);
    push_hex(&mut text, destination.as_bytes());
    text.push(',' as u8);
    push_decimal(&mut text, amount);
    text.push(']' as u8);
    assert(text@ =~= transfer_text(optional_key_view(*source), destination@, amount));
    sha256(text.as_slice())
}

impl Transaction {
    /// A transfer from the wallet's account, signed by the wallet.
    ///
    /// Signing must succeed on the transfer's digest; see
    /// [`Transaction::try_new`] for a constructor that tests this itself.
    pub fn new(sender_wallet: &Wallet, destination: PublicKey, amount: u64) -> (tx: Transaction)
        requires
            sender_wallet.signs(
                transfer_digest(Some(sender_wallet.public()), destination@, amount),
            ),
        ensures
            tx@.source == Some(sender_wallet.public()),
            tx@.destination == destination@,
            tx@.amount == amount,
            tx@.signature == ecdsa_signature(sender_wallet.secret(), tx@.digest()),
            tx@.is_valid(),
    {
        let mut tx = Transaction {
            source: Some(sender_wallet.public_key()),
            destination,
            amount,
            signature: None,
        };
        let hash = tx.calculate_hash();
        tx.signature = Some(sender_wallet.sign_prehashed(hash.as_slice()));
        tx
    }

    /// A transfer from the wallet's account, signed by the wallet, or
    /// `None` where signing fails on the transfer's digest.
    pub fn try_new(sender_wallet: &Wallet, destination: PublicKey, amount: u64) -> (res: Option<
        Transaction,
    >)
        ensures
            res is Some <==> sender_wallet.signs(
                transfer_digest(Some(sender_wallet.public()), destination@, amount),
            ),
            res matches Some(tx) ==> {
                &&& tx@.source == Some(sender_wallet.public())
                &&& tx@.destination == destination@
                &&& tx@.amount == amount
                &&& tx@.signature == ecdsa_signature(sender_wallet.secret(), tx@.digest())
                &&& tx@.is_valid()
            },
    {
        let source = Some(sender_wallet.public_key());
        let hash = digest_of(&source, &destination, amount);
        if sender_wallet.can_sign(hash.as_slice()) {
            Some(Transaction::new(sender_wallet, destination, amount))
        } else {
            None
        }
    }

    /// A reward of `amount` to `destination`: no source, no signature.
    pub fn new_coinbase(destination: PublicKey, amount: u64) -> (tx: Transaction)
        ensures
            tx@ == (TransactionView {
                source: None,
                destination: destination@,
                amount,
                signature: None,
            }),
            tx@.is_coinbase(),
            tx@.is_valid(),
    {
        Transaction { source: None, destination, amount, signature: None }
    }

    /// Whether the transaction is a reward, or carries a signature that
    /// verifies under its source.
    pub fn is_valid(&self) -> (valid: bool)
        ensures
            valid == self@.is_valid(),
    {
        match &self.source {
            Some(source_key) => match &self.signature {
                Some(signature) => {
                    let hash = self.calculate_hash();
                    source_key.verify_prehashed(hash.as_slice(), signature)
                },
                None => false,
            },
            None => self.signature.is_none(),
        }
    }

    /// The SHA-256 digest of source, destination and amount.
    pub fn calculate_hash(&self) -> (digest: Vec<u8>)
        ensures
            digest@ == self@.digest(),
            digest@.len() == DIGEST_LEN,
    {
        digest_of(&self.source, &self.destination, self.amount)
    }

    /// Appends the object that stands for the transaction in a block's
    /// hashed text.
    pub fn push_json(&self, out: &mut Vec<u8>)
        ensures
            final(out)@ == old(out)@ + self@.json(),
    {
        out.push('{' as u8);
        push_label(out, "source");
        push_optional_key(out, &self.source);
        out.push(',' as u8);
        push_label(out, "destination");
        push_hex(out, self.destination.as_bytes());
        out.push(',' as u8);
        push_label(out, "amount");
        push_decimal(out, self.amount);
        out.push(',' as u8);
        push_label(out, "signature");
        push_optional_signature(out, &self.signature);
        out.push('}' as u8);
    }
}

impl Clone for Transaction {
    fn clone(&self) -> (res: Self)
        ensures
            res@ == self@,
    {
        let source = match &self.source {
            Some(k) => Some(k.clone()),
            None => None,
        };
        let signature = match &self.signature {
            Some(s) => Some(s.clone()),
            None => None,
        };
        Transaction {
            source,
            destination: self.destination.clone(),
            amount: self.amount,
            signature,
        }
    }
}

/// A transaction without source and without signature is valid.
pub proof fn lemma_coinbase_is_valid(tx: TransactionView)
    requires
        tx.source is None,
        tx.signature is None,
    ensures
        tx.is_valid(),
{
}

} // verus!
