//! Signing keys and the wallets that hold them.

use crate::curve::{
    derive_public_key, ecdsa_signature, ecdsa_verifies, public_key_of, random_key_pair,
    scalar_in_range, sign_digest, SCALAR_LEN,
};
use crate::error::LedgerError;
use crate::hexfmt::{decode_hex, encode_hex, hex_text, is_hex, unhex};
use crate::transaction::{PublicKey, Signature};
use vstd::prelude::*;
use vstd::slice::slice_to_vec;
use vstd::string::StringSliceAdditionalSpecFns;

verus! {

/// A secret scalar in range, held as its 32 bytes together with the public
/// key that belongs to it.
pub struct SigningKey {
    secret: Vec<u8>,
    public: PublicKey,
}

impl View for SigningKey {
    type V = Seq<u8>;

    closed spec fn view(&self) -> Seq<u8> {
        self.secret@
    }
}

impl SigningKey {
    #[verifier::type_invariant]
    spec fn well_formed(&self) -> bool {
        &&& scalar_in_range(self.secret@)
        &&& self.public@ == public_key_of(self.secret@)
    }

    /// A fresh key from the operating system's random generator.
    pub fn random() -> (key: SigningKey)
        ensures
            scalar_in_range(key@),
    {
        let (secret, point) = random_key_pair();
        SigningKey { secret, public: PublicKey::from_compressed(point) }
    }

    /// Reads a key from the 32 bytes of its scalar. Fails exactly where the
    /// bytes are not a scalar in range.
    pub fn from_bytes(bytes: &[u8]) -> (res: Result<SigningKey, LedgerError>)
        ensures
            match res {
                Ok(key) => key@ == bytes@ && scalar_in_range(bytes@),
                Err(e) => e == LedgerError::KeyDecodeError && !scalar_in_range(bytes@),
            },
    {
        if bytes.len() != SCALAR_LEN {
            return Err(LedgerError::KeyDecodeError);
        }
        match derive_public_key(bytes) {
            Ok(point) => {
                let public = PublicKey::from_compressed(point);
                Ok(SigningKey { secret: slice_to_vec(bytes), public })
            },
            Err(_) => Err(LedgerError::KeyDecodeError),
        }
    }

    /// The 32 bytes of the scalar.
    pub fn to_bytes(&self) -> (bytes: Vec<u8>)
        ensures
            bytes@ == self@,
            scalar_in_range(self@),
    {
        proof {
            use_type_invariant(self);
        }
        self.secret.clone()
    }

    /// Whether signing with this key succeeds on `digest`.
    pub(crate) fn signs(&self, digest: &[u8]) -> (res: bool)
        ensures
            res == ecdsa_signature(self@, digest@) is Some,
    {
        proof {
            use_type_invariant(self);
        }
        sign_digest(self.secret.as_slice(), digest).is_ok()
    }

    /// Signs a digest on which signing succeeds.
    pub(crate) fn sign(&self, digest: &[u8]) -> (signature: Signature)
        requires
            ecdsa_signature(self@, digest@) is Some,
        ensures
            ecdsa_signature(self@, digest@) == Some(signature@),
            ecdsa_verifies(public_key_of(self@), digest@, signature@),
    {
        proof {
            use_type_invariant(self);
        }
        let signed = sign_digest(self.secret.as_slice(), digest);
        Signature::from_checked(signed.unwrap())
    }

    /// The public key that belongs to this key.
    pub fn verifying_key(&self) -> (key: PublicKey)
        ensures
            key@ == public_key_of(self@),
    {
        proof {
            use_type_invariant(self);
        }
        self.public.clone()
    }
}

/// One identity: a signing key and its public key.
pub struct Wallet {
    signing_key: SigningKey,
    public_key: PublicKey,
}

impl Wallet {
    #[verifier::type_invariant]
    spec fn well_formed(&self) -> bool {
        self.public_key@ == public_key_of(self.signing_key@)
    }

    /// The scalar of the wallet's signing key.
    pub closed spec fn secret(&self) -> Seq<u8> {
        self.signing_key@
    }

    /// The compressed encoding of the wallet's public key.
    pub closed spec fn public(&self) -> Seq<u8> {
        self.public_key@
    }

    /// Whether signing with this wallet succeeds on `digest`.
    pub open spec fn signs(&self, digest: Seq<u8>) -> bool {
        ecdsa_signature(self.secret(), digest) is Some
    }

    /// A wallet with a fresh random key.
    pub fn new() -> (wallet: Wallet)
        ensures
            scalar_in_range(wallet.secret()),
            wallet.public() == public_key_of(wallet.secret()),
    {
        Wallet::from_signing_key(SigningKey::random())
    }

    /// The wallet of a given signing key.
    pub fn from_signing_key(signing_key: SigningKey) -> (wallet: Wallet)
        ensures
            wallet.secret() == signing_key@,
            wallet.public() == public_key_of(signing_key@),
    {
        let public_key = signing_key.verifying_key();
        Wallet { signing_key, public_key }
    }

    /// The wallet's public key.
    pub fn public_key(&self) -> (key: PublicKey)
        ensures
            key@ == self.public(),
            self.public() == public_key_of(self.secret()),
    {
        proof {
            use_type_invariant(self);
        }
        self.public_key.clone()
    }

    /// The wallet's signing key.
    pub fn signing_key(&self) -> (key: &SigningKey)
        ensures
            key@ == self.secret(),
    {
        &self.signing_key
    }

    /// Whether signing with this wallet succeeds on `hash`.
    pub fn can_sign(&self, hash: &[u8]) -> (res: bool)
        ensures
            res == self.signs(hash@),
    {
        self.signing_key.signs(hash)
    }

    /// Signs a digest. The signature is a function of key and digest, and
    /// verifies under the wallet's public key.
    ///
    /// Signing must succeed on `hash`; see [`Wallet::try_sign_prehashed`]
    /// for a function that tests this itself.
    pub fn sign_prehashed(&self, hash: &[u8]) -> (signature: Signature)
        requires
            self.signs(hash@),
        ensures
            ecdsa_signature(self.secret(), hash@) == Some(signature@),
            ecdsa_verifies(self.public(), hash@, signature@),
    {
        proof {
            use_type_invariant(self);
        }
        self.signing_key.sign(hash)
    }

    /// Signs a digest, or returns `None` where signing fails on it.
    pub fn try_sign_prehashed(&self, hash: &[u8]) -> (res: Option<Signature>)
        ensures
            res is Some <==> self.signs(hash@),
            res matches Some(signature) ==> {
                &&& ecdsa_signature(self.secret(), hash@) == Some(signature@)
                &&& ecdsa_verifies(self.public(), hash@, signature@)
            },
    {
        if self.can_sign(hash) {
            Some(self.sign_prehashed(hash))
        } else {
            None
        }
    }
}

/// The signing key that hexadecimal text stands for, or `None` where the
/// text is not hexadecimal or its bytes are no scalar in range.
pub open spec fn signing_key_of_text(text: Seq<u8>) -> Option<Seq<u8>> {
    if is_hex(text) && scalar_in_range(unhex(text)) {
        Some(unhex(text))
    } else {
        None
    }
}

/// The scalar of a signing key in hexadecimal.
pub fn serialize_key(key: &SigningKey) -> (text: String)
    ensures
        text@ == hex_text(key@),
{
    encode_hex(key.secret.as_slice())
}

/// Reads a signing key from the hexadecimal text of its scalar. Fails
/// exactly where the text is not hexadecimal or does not give a scalar in
/// range.
pub fn deserialize_key(hex_str: &str) -> (res: Result<SigningKey, LedgerError>)
    ensures
        match res {
            Ok(key) => signing_key_of_text(hex_str.spec_bytes()) == Some(key@),
            Err(e) => e == LedgerError::KeyDecodeError && signing_key_of_text(
                hex_str.spec_bytes(),
            ) is None,
        },
{
    match decode_hex(hex_str.as_bytes()) {
        Ok(bytes) => SigningKey::from_bytes(bytes.as_slice()),
        Err(_) => Err(LedgerError::KeyDecodeError),
    }
}

} // verus!
