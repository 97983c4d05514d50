//! Keys and signatures on the P-256 curve, taken from the `p256` crate.
//!
//! Keys and signatures cross this boundary as byte strings: a public key as
//! the 33 bytes of its compressed SEC1 encoding, a secret key as the 32 bytes
//! of its scalar, a signature as the 64 bytes of `r` followed by `s`.

use p256::ecdsa::signature::hazmat::PrehashSigner;
use p256::ecdsa::signature::hazmat::PrehashVerifier;
use vstd::prelude::*;

verus! {

/// Number of bytes in a scalar of the curve.
pub const SCALAR_LEN: usize = 32;

/// Number of bytes in a signature.
pub const SIGNATURE_LEN: usize = 64;

/// Number of bytes in the compressed encoding of a point.
pub const COMPRESSED_LEN: usize = 33;

/// The order of the curve's group.
pub open spec fn group_order() -> nat {
    0xffffffff00000000ffffffffffffffffbce6faada7179e84f3b9cac2fc632551nat
}

/// The number that a byte string stands for, most significant byte first.
pub open spec fn big_endian(bytes: Seq<u8>) -> nat
    decreases bytes.len(),
{
    if bytes.len() == 0 {
        0
    } else {
        big_endian(bytes.drop_last()) * 256 + bytes.last() as nat
    }
}

/// Whether `bytes` are the 32 bytes of a scalar that is neither zero nor
/// as large as the group order.
pub open spec fn scalar_in_range(bytes: Seq<u8>) -> bool {
    &&& bytes.len() == SCALAR_LEN
    &&& 0 < big_endian(bytes) < group_order()
}

/// Whether `bytes` are the 64 bytes of a signature: `r` then `s`, each a
/// scalar in range.
pub open spec fn signature_in_range(bytes: Seq<u8>) -> bool {
    &&& bytes.len() == SIGNATURE_LEN
    &&& scalar_in_range(bytes.subrange(0, SCALAR_LEN as int))
    &&& scalar_in_range(bytes.subrange(SCALAR_LEN as int, SIGNATURE_LEN as int))
}

/// The compressed encoding of the point that `bytes` encode in any SEC1
/// form, or `None` where they encode no point that can be a public key.
pub uninterp spec fn sec1_compressed(bytes: Seq<u8>) -> Option<Seq<u8>>;

/// Whether `bytes` are the compressed encoding of a public key.
pub open spec fn is_public_key(bytes: Seq<u8>) -> bool {
    sec1_compressed(bytes) == Some(bytes)
}

/// The compressed encoding of the public key that belongs to a secret
/// scalar.
pub uninterp spec fn public_key_of(secret: Seq<u8>) -> Seq<u8>;

/// The signature that a secret scalar gives to a digest, or `None` where
/// signing fails.
pub uninterp spec fn ecdsa_signature(secret: Seq<u8>, digest: Seq<u8>) -> Option<Seq<u8>>;

/// Whether a signature on a digest verifies under a public key.
pub uninterp spec fn ecdsa_verifies(public: Seq<u8>, digest: Seq<u8>, signature: Seq<u8>) -> bool;

#[verifier::external_type_specification]
#[verifier::external_body]
pub struct ExCurveError(p256::ecdsa::Error);

/// Calls `VerifyingKey::from_sec1_bytes` and encodes the key it returns
/// with `to_encoded_point(true)`. Assumed: the outcome is a function of the
/// input alone, named [`sec1_compressed`]; a compressed encoding is 33
/// bytes long and decodes to itself.
#[verifier::external_body]
pub(crate) fn compress_public_key(bytes: &[u8]) -> (res: Result<Vec<u8>, p256::ecdsa::Error>)
    ensures
        res is Ok <==> sec1_compressed(bytes@) is Some,
        res matches Ok(point) ==> {
            &&& sec1_compressed(bytes@) == Some(point@)
            &&& point@.len() == COMPRESSED_LEN
            &&& is_public_key(point@)
        },
{
    match p256::ecdsa::VerifyingKey::from_sec1_bytes(bytes) {
        Ok(key) => Ok(key.to_encoded_point(true).as_bytes().to_vec()),
        Err(e) => Err(e),
    }
}

/// Calls `SigningKey::from_slice` on 32 bytes and encodes the verifying key
/// of the key it returns. Assumed: it succeeds exactly on a scalar in range;
/// the public key is a function of the secret alone, named
/// [`public_key_of`], and is a compressed encoding of a public key.
#[verifier::external_body]
pub(crate) fn derive_public_key(secret: &[u8]) -> (res: Result<Vec<u8>, p256::ecdsa::Error>)
    requires
        secret@.len() == SCALAR_LEN,
    ensures
        res is Ok <==> scalar_in_range(secret@),
        res matches Ok(point) ==> {
            &&& point@ == public_key_of(secret@)
            &&& point@.len() == COMPRESSED_LEN
            &&& is_public_key(point@)
        },
{
    match p256::ecdsa::SigningKey::from_slice(secret) {
        Ok(key) => Ok(key.verifying_key().to_encoded_point(true).as_bytes().to_vec()),
        Err(e) => Err(e),
    }
}

/// Calls `SigningKey::sign_prehash`, which signs deterministically, on the
/// key that `SigningKey::from_slice` makes of 32 bytes. Assumed: the outcome
/// is a function of secret and digest alone, named [`ecdsa_signature`]; a
/// signature that comes back is in range and verifies, on the same digest,
/// under the public key of the secret.
#[verifier::external_body]
pub(crate) fn sign_digest(secret: &[u8], digest: &[u8]) -> (res: Result<
    Vec<u8>,
    p256::ecdsa::Error,
>)
    requires
        secret@.len() == SCALAR_LEN,
    ensures
        res is Ok <==> ecdsa_signature(secret@, digest@) is Some,
        res matches Ok(signature) ==> {
            &&& ecdsa_signature(secret@, digest@) == Some(signature@)
            &&& signature_in_range(signature@)
            &&& ecdsa_verifies(public_key_of(secret@), digest@, signature@)
        },
{
    match p256::ecdsa::SigningKey::from_slice(secret) {
        Ok(key) => {
            let signed: Result<p256::ecdsa::Signature, _> = key.sign_prehash(digest);
            match signed {
                Ok(signature) => Ok(signature.to_bytes().to_vec()),
                Err(e) => Err(e),
            }
        },
        Err(e) => Err(e),
    }
}

/// Calls `VerifyingKey::verify_prehash` on the key and the signature that
/// the bytes decode to, and returns `false` where they decode to none.
/// Assumed: the outcome is a function of the three byte strings alone,
/// named [`ecdsa_verifies`].
#[verifier::external_body]
pub(crate) fn verify_digest(public: &[u8], digest: &[u8], signature: &[u8]) -> (res: bool)
    ensures
        res == ecdsa_verifies(public@, digest@, signature@),
{
    match (
        p256::ecdsa::VerifyingKey::from_sec1_bytes(public),
        p256::ecdsa::Signature::from_slice(signature),
    ) {
        (Ok(key), Ok(sig)) => key.verify_prehash(digest, &sig).is_ok(),
        _ => false,
    }
}

/// Calls `Signature::from_slice`. Assumed: it succeeds exactly on 64 bytes
/// whose halves, read as big-endian numbers, are both at least 1 and below
/// the group order.
#[verifier::external_body]
pub(crate) fn signature_bytes_in_range(bytes: &[u8]) -> (res: bool)
    ensures
        res == signature_in_range(bytes@),
{
    p256::ecdsa::Signature::from_slice(bytes).is_ok()
}

/// Calls `SigningKey::random` with the operating system's generator and
/// returns the scalar of the key and the encoding of its verifying key.
/// Assumed, of every outcome: the scalar is in range, and the public key is
/// the one that belongs to it.
#[verifier::external_body]
pub(crate) fn random_key_pair() -> (pair: (Vec<u8>, Vec<u8>))
    ensures
        scalar_in_range(pair.0@),
        pair.1@ == public_key_of(pair.0@),
        pair.1@.len() == COMPRESSED_LEN,
        is_public_key(pair.1@),
{
    let key = p256::ecdsa::SigningKey::random(&mut rand::rngs::OsRng);
    let public = key.verifying_key().to_encoded_point(true).as_bytes().to_vec();
    (key.to_bytes().to_vec(), public)
}

} // verus!
