//! Tests for the key primitives: base64 decoding of public keys, signing and
//! verification, base64 round trips, and the pickle round trips.

use megolm_inbound::{
    Curve25519KeyError, Curve25519Keypair, Curve25519PublicKey, DecodeError, Ed25519Keypair,
    Ed25519PublicKey, Ed25519Signature, KeyId,
};
use megolm_inbound::curve25519::{curve25519_key_base64_round_trip, curve25519_pickle_round_trip};
use megolm_inbound::cipher::Cipher;
use megolm_inbound::ed25519::{
    ed25519_key_base64_round_trip, ed25519_pickle_round_trip, ed25519_signature_base64_round_trip,
};
use megolm_inbound::{KeyError, SignatureError};

#[test]
fn decoding_invalid_base64_fails() {
    let base64_payload = "a";
    assert!(matches!(
        Curve25519PublicKey::from_base64(base64_payload),
        Err(Curve25519KeyError::Base64Error(DecodeError::InvalidLength))
    ));

    let base64_payload = "a ";
    assert!(matches!(
        Curve25519PublicKey::from_base64(base64_payload),
        Err(Curve25519KeyError::Base64Error(DecodeError::InvalidByte(..)))
    ));

    let base64_payload = "aZ";
    assert!(matches!(
        Curve25519PublicKey::from_base64(base64_payload),
        Err(Curve25519KeyError::Base64Error(DecodeError::InvalidLastSymbol(..)))
    ));
}

#[test]
fn decoding_incorrect_num_of_bytes_fails() {
    let base64_payload = "aaaa";
    assert!(matches!(
        Curve25519PublicKey::from_base64(base64_payload),
        Err(Curve25519KeyError::InvalidKeyLength(..))
    ));
}

#[test]
fn decoding_of_correct_num_of_bytes_succeeds() {
    let base64_payload = "MDAwMDAwMDAwMDAwMDAwMDAwMDAwMDAwMDAwMDAwMDA";
    assert!(matches!(Curve25519PublicKey::from_base64(base64_payload), Ok(..)));
}

#[test]
fn curve25519_base64_known_answer() {
    // 32 bytes of ASCII '0' encode to the text the decoding test starts from.
    let key = Curve25519PublicKey::new([0x30u8; 32]);
    assert_eq!(key.to_base64(), "MDAwMDAwMDAwMDAwMDAwMDAwMDAwMDAwMDAwMDAwMDA");
    let back = Curve25519PublicKey::from_base64(&key.to_base64()).unwrap();
    assert_eq!(back, key);
}

#[test]
fn curve25519_base64_round_trip_for_random_key() {
    let keypair = Curve25519Keypair::new();
    let key = keypair.public_key();
    let round_tripped = curve25519_key_base64_round_trip(&key);
    assert_eq!(round_tripped, key);
    assert_eq!(keypair.public_key_encoded(), key.to_base64());
}

#[test]
fn curve25519_pickle_round_trips_byte_identical() {
    let keypair = Curve25519Keypair::new();
    let first = keypair.pickle();
    let second = curve25519_pickle_round_trip(&keypair);
    assert_eq!(first.secret_bytes(), second.secret_bytes());
    assert_eq!(first.public_bytes(), second.public_bytes());
    assert_eq!(first.public_bytes(), keypair.public_key().as_bytes());
}

#[test]
fn ed25519_sign_then_verify_succeeds() {
    let keypair = Ed25519Keypair::new();
    let message = b"It's dangerous to go alone";
    let signature = keypair.sign(message);
    assert!(keypair.public_key().verify(message, &signature).is_ok());
}

#[test]
fn ed25519_verify_rejects_changed_message_or_signature() {
    let keypair = Ed25519Keypair::new();
    let message = b"It's dangerous to go alone";
    let signature = keypair.sign(message);
    let public_key = keypair.public_key();

    let mut flipped_message = message.to_vec();
    flipped_message[0] ^= 0x01;
    assert!(public_key.verify(&flipped_message, &signature).is_err());

    let mut flipped_signature = signature.to_bytes();
    flipped_signature[0] ^= 0x01;
    let bad_signature = Ed25519Signature::from_slice(&flipped_signature).unwrap();
    assert!(public_key.verify(message, &bad_signature).is_err());
}

#[test]
fn ed25519_base64_round_trips() {
    let keypair = Ed25519Keypair::new();
    let key = keypair.public_key();
    assert_eq!(ed25519_key_base64_round_trip(&key), key);
    assert_eq!(Ed25519PublicKey::from_base64(&key.to_base64()).unwrap(), key);
    assert_eq!(keypair.public_key_encoded(), key.to_base64());

    let signature = keypair.sign(b"some message");
    assert_eq!(ed25519_signature_base64_round_trip(&signature), signature);
    assert_eq!(Ed25519Signature::from_base64(&signature.to_base64()).unwrap(), signature);
}

#[test]
fn ed25519_signature_rejects_wrong_length() {
    assert!(Ed25519Signature::from_slice(&[0u8; 63]).is_err());
    assert!(Ed25519Signature::from_slice(&[0u8; 64]).is_ok());
}

#[test]
fn ed25519_pickle_round_trips_byte_identical() {
    let keypair = Ed25519Keypair::from_secret_key(&[7u8; 32]);
    let first = keypair.pickle();
    let second = ed25519_pickle_round_trip(&keypair);
    assert_eq!(first.as_bytes(), second.as_bytes());
    assert_eq!(first.as_bytes(), &[7u8; 32]);
}

#[test]
fn ed25519_keypair_derives_same_public_key_from_same_secret() {
    let first = Ed25519Keypair::from_secret_key(&[42u8; 32]);
    let second = Ed25519Keypair::from_secret_key(&[42u8; 32]);
    assert_eq!(first.public_key(), second.public_key());

    let other = Ed25519Keypair::from_secret_key(&[43u8; 32]);
    assert_ne!(first.public_key(), other.public_key());
}

#[test]
fn key_id_encodes_little_endian_base64() {
    assert_eq!(KeyId(0).to_base64(), "AAAAAAAAAAA");
    assert_eq!(KeyId(1).to_base64(), "AQAAAAAAAAA");
}

#[test]
fn ed25519_key_from_base64_rejects_wrong_length_and_bad_text() {
    assert!(matches!(
        Ed25519PublicKey::from_base64("aaaa"),
        Err(KeyError::InvalidKeyLength(_))
    ));
    assert!(matches!(Ed25519PublicKey::from_base64("!!!"), Err(KeyError::Base64(_))));
}

#[test]
fn ed25519_signature_from_base64_rejects_bad_text_and_length() {
    assert!(matches!(Ed25519Signature::from_base64("!!!"), Err(SignatureError::Base64(_))));
    assert!(matches!(Ed25519Signature::from_base64("aaaa"), Err(SignatureError::Signature)));
}

#[test]
fn cipher_mac_detects_single_byte_change() {
    let cipher = Cipher::new_megolm(&[9u8; 128]);
    let message = b"an authenticated message".to_vec();
    let mac = cipher.compute_mac(&message);
    assert!(cipher.verify_mac(&message, &mac));

    for position in 0..message.len() {
        let mut changed = message.clone();
        changed[position] ^= 0x40;
        assert!(!cipher.verify_mac(&changed, &mac));
    }
}

#[test]
fn keypairs_clone_to_equal_keys() {
    let ed = Ed25519Keypair::from_secret_key(&[8u8; 32]);
    let ed_copy = ed.clone();
    assert_eq!(ed.public_key(), ed_copy.public_key());
    assert_eq!(ed.pickle().as_bytes(), ed_copy.pickle().as_bytes());

    let curve = Curve25519Keypair::new();
    let curve_copy = curve.clone();
    assert_eq!(curve.public_key(), curve_copy.public_key());
    assert_eq!(curve.secret_key(), curve_copy.secret_key());
}
