use mini_blockchain::error::LedgerError;
use mini_blockchain::key_hex;
use mini_blockchain::signature_hex;
use mini_blockchain::transaction::{PublicKey, Signature};
use mini_blockchain::wallet::{deserialize_key, serialize_key, SigningKey, Wallet};
use p256::ecdsa::signature::hazmat::PrehashVerifier;
use std::collections::HashSet;

const GENERATOR_COMPRESSED: &str =
    "036b17d1f2e12c4247f8bce6e563a440f277037d812deb33a0f4a13945d898c296";
const GENERATOR_UNCOMPRESSED: &str = "046b17d1f2e12c4247f8bce6e563a440f277037d812deb33a0f4a13945d898c2964fe342e2fe1a7f9b8ee7eb4a7c0f9e162bce33576b315ececbb6406837bf51f5";
const ORDER: &str = "ffffffff00000000ffffffffffffffffbce6faada7179e84f3b9cac2fc632551";
const ORDER_LESS_ONE: &str = "ffffffff00000000ffffffffffffffffbce6faada7179e84f3b9cac2fc632550";

fn scalar(last: u8) -> Vec<u8> {
    let mut bytes = vec![0u8; 32];
    bytes[31] = last;
    bytes
}

#[test]
fn key_of_scalar_one_is_the_generator() {
    let key = SigningKey::from_bytes(&scalar(1)).unwrap();
    assert_eq!(key.verifying_key().to_hex(), GENERATOR_COMPRESSED);
    assert_eq!(key.to_bytes(), scalar(1));
}

#[test]
fn wallet_holds_the_public_key_of_its_signing_key() {
    let wallet = Wallet::from_signing_key(SigningKey::from_bytes(&scalar(1)).unwrap());
    assert_eq!(wallet.public_key().to_hex(), GENERATOR_COMPRESSED);
    assert_eq!(wallet.signing_key().to_bytes(), scalar(1));
}

#[test]
fn fresh_wallets_differ_and_are_well_formed() {
    let a = Wallet::new();
    let b = Wallet::new();
    assert_ne!(a.public_key(), b.public_key());
    assert_eq!(a.public_key().as_bytes().len(), 33);
    let again = SigningKey::from_bytes(&a.signing_key().to_bytes()).unwrap();
    assert_eq!(again.verifying_key(), a.public_key());
}

#[test]
fn public_key_is_read_from_either_encoding() {
    let compressed = PublicKey::from_sec1_bytes(&hex::decode(GENERATOR_COMPRESSED).unwrap()).unwrap();
    let uncompressed =
        PublicKey::from_sec1_bytes(&hex::decode(GENERATOR_UNCOMPRESSED).unwrap()).unwrap();
    assert_eq!(compressed, uncompressed);
    assert_eq!(uncompressed.as_bytes(), &hex::decode(GENERATOR_COMPRESSED).unwrap()[..]);
}

#[test]
fn public_key_bytes_that_are_no_point_are_rejected() {
    assert_eq!(PublicKey::from_sec1_bytes(&[]).unwrap_err(), LedgerError::KeyDecodeError);
    assert_eq!(PublicKey::from_sec1_bytes(&[0x00]).unwrap_err(), LedgerError::KeyDecodeError);
    assert_eq!(PublicKey::from_sec1_bytes(&[0x02; 32]).unwrap_err(), LedgerError::KeyDecodeError);
    assert_eq!(PublicKey::from_sec1_bytes(&[0x07; 33]).unwrap_err(), LedgerError::KeyDecodeError);
    let mut off_curve = hex::decode(GENERATOR_UNCOMPRESSED).unwrap();
    off_curve[64] ^= 1;
    assert_eq!(PublicKey::from_sec1_bytes(&off_curve).unwrap_err(), LedgerError::KeyDecodeError);
}

#[test]
fn public_key_text_round_trip() {
    let wallet = Wallet::new();
    let key = wallet.public_key();
    let text = key_hex::serialize(&key);
    assert_eq!(text.len(), 66);
    assert_eq!(text, hex::encode(key.as_bytes()));
    assert_eq!(key_hex::deserialize(&text).unwrap(), key);
}

#[test]
fn public_key_text_in_upper_case_is_read() {
    let upper = GENERATOR_COMPRESSED.to_uppercase();
    assert_eq!(key_hex::deserialize(&upper).unwrap().to_hex(), GENERATOR_COMPRESSED);
}

#[test]
fn public_key_text_that_is_no_key_is_rejected() {
    assert_eq!(key_hex::deserialize("").unwrap_err(), LedgerError::KeyDecodeError);
    assert_eq!(key_hex::deserialize("036").unwrap_err(), LedgerError::KeyDecodeError);
    assert_eq!(key_hex::deserialize("zz").unwrap_err(), LedgerError::KeyDecodeError);
    assert_eq!(
        key_hex::deserialize(&GENERATOR_COMPRESSED[..64]).unwrap_err(),
        LedgerError::KeyDecodeError
    );
    assert_eq!(key_hex::deserialize("é").unwrap_err(), LedgerError::KeyDecodeError);
}

#[test]
fn signing_key_out_of_range_is_rejected() {
    assert_eq!(SigningKey::from_bytes(&scalar(0)).err(), Some(LedgerError::KeyDecodeError));
    assert_eq!(
        SigningKey::from_bytes(&hex::decode(ORDER).unwrap()).err(),
        Some(LedgerError::KeyDecodeError)
    );
    assert_eq!(SigningKey::from_bytes(&[0xff; 32]).err(), Some(LedgerError::KeyDecodeError));
    assert!(SigningKey::from_bytes(&hex::decode(ORDER_LESS_ONE).unwrap()).is_ok());
}

#[test]
fn signing_key_of_another_length_is_rejected() {
    assert_eq!(SigningKey::from_bytes(&[]).err(), Some(LedgerError::KeyDecodeError));
    assert_eq!(SigningKey::from_bytes(&[1u8; 31]).err(), Some(LedgerError::KeyDecodeError));
    assert_eq!(SigningKey::from_bytes(&[1u8; 24]).err(), Some(LedgerError::KeyDecodeError));
    assert_eq!(SigningKey::from_bytes(&[1u8; 33]).err(), Some(LedgerError::KeyDecodeError));
}

#[test]
fn signing_key_text_round_trip() {
    let key = SigningKey::from_bytes(&scalar(7)).unwrap();
    let text = serialize_key(&key);
    assert_eq!(text, "0000000000000000000000000000000000000000000000000000000000000007");
    assert_eq!(deserialize_key(&text).unwrap().to_bytes(), scalar(7));
}

#[test]
fn signing_key_text_that_is_no_key_is_rejected() {
    assert_eq!(deserialize_key("not hex").err(), Some(LedgerError::KeyDecodeError));
    assert_eq!(deserialize_key("00").err(), Some(LedgerError::KeyDecodeError));
    assert_eq!(deserialize_key(&"00".repeat(32)).err(), Some(LedgerError::KeyDecodeError));
    assert_eq!(deserialize_key(ORDER).err(), Some(LedgerError::KeyDecodeError));
    assert_eq!(deserialize_key(&ORDER[1..]).err(), Some(LedgerError::KeyDecodeError));
}

#[test]
fn signature_is_read_from_sixty_four_bytes_in_range() {
    let mut bytes = vec![0u8; 64];
    bytes[31] = 1;
    bytes[63] = 1;
    let signature = Signature::from_bytes(&bytes).unwrap();
    assert_eq!(signature.as_bytes(), &bytes[..]);
    assert_eq!(signature.to_hex(), hex::encode(&bytes));
}

#[test]
fn signature_out_of_range_is_rejected() {
    let zero = vec![0u8; 64];
    assert_eq!(Signature::from_bytes(&zero).err(), Some(LedgerError::SignatureDecodeError));
    let mut zero_s = vec![0u8; 64];
    zero_s[31] = 1;
    assert_eq!(Signature::from_bytes(&zero_s).err(), Some(LedgerError::SignatureDecodeError));
    let mut zero_r = vec![0u8; 64];
    zero_r[63] = 1;
    assert_eq!(Signature::from_bytes(&zero_r).err(), Some(LedgerError::SignatureDecodeError));
    let mut large_r = hex::decode(ORDER).unwrap();
    large_r.extend_from_slice(&scalar(1));
    assert_eq!(Signature::from_bytes(&large_r).err(), Some(LedgerError::SignatureDecodeError));
    let mut largest = hex::decode(ORDER_LESS_ONE).unwrap();
    largest.extend_from_slice(&hex::decode(ORDER_LESS_ONE).unwrap());
    assert!(Signature::from_bytes(&largest).is_ok());
}

#[test]
fn signature_of_another_length_is_rejected() {
    assert_eq!(Signature::from_bytes(&[]).err(), Some(LedgerError::SignatureDecodeError));
    assert_eq!(Signature::from_bytes(&[1u8; 63]).err(), Some(LedgerError::SignatureDecodeError));
    assert_eq!(Signature::from_bytes(&[1u8; 65]).err(), Some(LedgerError::SignatureDecodeError));
}

#[test]
fn signature_text_round_trip() {
    let wallet = Wallet::new();
    let signature = wallet.sign_prehashed(&[7u8; 32]);
    let text = signature_hex::serialize(&Some(signature.clone())).unwrap();
    assert_eq!(text.len(), 128);
    assert_eq!(text, hex::encode(signature.as_bytes()));
    assert_eq!(signature_hex::deserialize(Some(text.as_str())).unwrap(), Some(signature));
}

#[test]
fn absent_signature_has_no_text() {
    assert_eq!(signature_hex::serialize(&None), None);
    assert_eq!(signature_hex::deserialize(None).unwrap(), None);
}

#[test]
fn signature_text_that_is_no_signature_is_rejected() {
    assert_eq!(
        signature_hex::deserialize(Some("xyz")).err(),
        Some(LedgerError::SignatureDecodeError)
    );
    assert_eq!(
        signature_hex::deserialize(Some("abcd")).err(),
        Some(LedgerError::SignatureDecodeError)
    );
    assert_eq!(
        signature_hex::deserialize(Some(&"00".repeat(64))).err(),
        Some(LedgerError::SignatureDecodeError)
    );
    assert_eq!(
        signature_hex::deserialize(Some("")).err(),
        Some(LedgerError::SignatureDecodeError)
    );
}

#[test]
fn signing_is_a_function_of_key_and_digest() {
    let wallet = Wallet::from_signing_key(SigningKey::from_bytes(&scalar(9)).unwrap());
    let first = wallet.sign_prehashed(&[1u8; 32]);
    let second = wallet.sign_prehashed(&[1u8; 32]);
    let other = wallet.sign_prehashed(&[2u8; 32]);
    assert_eq!(first, second);
    assert_ne!(first, other);
    assert_eq!(wallet.try_sign_prehashed(&[1u8; 32]), Some(first));
}

#[test]
fn signature_verifies_under_the_wallets_key_only() {
    let wallet = Wallet::new();
    let stranger = Wallet::new();
    let digest = [0x5au8; 32];
    let signature = wallet.sign_prehashed(&digest);
    assert!(wallet.public_key().verify_prehashed(&digest, &signature));
    assert!(!stranger.public_key().verify_prehashed(&digest, &signature));
    assert!(!wallet.public_key().verify_prehashed(&[0x5bu8; 32], &signature));
}

#[test]
fn a_digest_that_is_too_short_cannot_be_signed_or_verified() {
    let wallet = Wallet::new();
    assert!(!wallet.can_sign(&[1u8; 15]));
    assert_eq!(wallet.try_sign_prehashed(&[1u8; 15]), None);
    assert!(wallet.can_sign(&[1u8; 32]));
    let signature = wallet.sign_prehashed(&[1u8; 32]);
    assert!(!wallet.public_key().verify_prehashed(&[1u8; 15], &signature));
}

#[test]
fn signature_agrees_with_the_curve_library() {
    let wallet = Wallet::new();
    let digest = [0x11u8; 32];
    let signature = wallet.sign_prehashed(&digest);
    let key = p256::ecdsa::VerifyingKey::from_sec1_bytes(wallet.public_key().as_bytes()).unwrap();
    let sig = p256::ecdsa::Signature::from_slice(signature.as_bytes()).unwrap();
    assert!(key.verify_prehash(&digest, &sig).is_ok());
}

#[test]
fn keys_hash_as_their_encodings_do() {
    let a = Wallet::new().public_key();
    let b = Wallet::new().public_key();
    let mut seen = HashSet::new();
    assert!(seen.insert(a.clone()));
    assert!(seen.insert(b.clone()));
    assert!(!seen.insert(PublicKey::from_sec1_bytes(a.as_bytes()).unwrap()));
    assert_eq!(seen.len(), 2);
    assert!(seen.contains(&b));
}
