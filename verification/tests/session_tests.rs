//! Tests for the inbound group session: session-key parsing and its round
//! trip, out-of-order decryption, the forward-secrecy boundary, tampering,
//! and the error taxonomy.

use megolm_inbound::cipher::Cipher;
use megolm_inbound::encoding::{base64_decode, base64_encode};
use megolm_inbound::inbound_group_session::{serialize_session_key, session_key_round_trip};
use megolm_inbound::ratchet::Ratchet;
use megolm_inbound::util::{push_bytes, push_u32_le};
use megolm_inbound::{
    DecryptionError, Ed25519Keypair, InboundGroupSession, SessoinCreationError,
};

/// Build a signed, MAC'd, base64 message for the given index, as the sender
/// side of the scheme would.
fn seal_bytes(
    keypair: &Ed25519Keypair,
    seed: &[u8; 128],
    start: u32,
    index: u32,
    plaintext: &[u8],
) -> String {
    let mut ratchet = Ratchet::from_bytes(*seed, start);
    ratchet.advance_to(index);
    let cipher = Cipher::new_megolm(ratchet.as_bytes());
    let ciphertext = cipher.encrypt(plaintext);

    let mut body: Vec<u8> = Vec::new();
    push_u32_le(&mut body, index);
    push_bytes(&mut body, &ciphertext);
    let mac = cipher.compute_mac(&body);
    push_bytes(&mut body, &mac);
    let signature = keypair.sign(&body);
    let signature_bytes = signature.to_bytes();
    push_bytes(&mut body, &signature_bytes);
    base64_encode(&body)
}

fn seal(keypair: &Ed25519Keypair, seed: &[u8; 128], start: u32, index: u32, text: &str) -> String {
    seal_bytes(keypair, seed, start, index, text.as_bytes())
}

fn make_session(keypair: &Ed25519Keypair, seed: &[u8; 128], start: u32) -> InboundGroupSession {
    let session_key = serialize_session_key(start, seed, keypair);
    InboundGroupSession::new(session_key).unwrap()
}

/// Flip one byte of a base64 blob's decoded bytes and re-encode it.
fn tamper(text: &str, position: usize) -> String {
    let mut bytes = base64_decode(text).unwrap();
    bytes[position] ^= 0x01;
    base64_encode(&bytes)
}

#[test]
fn session_key_parse_round_trips() {
    let keypair = Ed25519Keypair::from_secret_key(&[9u8; 32]);
    let seed = [3u8; 128];
    let session = session_key_round_trip(17, &seed, &keypair);
    assert_eq!(session.first_known_index(), 17);
}

#[test]
fn session_key_tampering_fails_construction() {
    let keypair = Ed25519Keypair::new();
    let seed = [5u8; 128];
    let session_key = serialize_session_key(0, &seed, &keypair);
    // Every byte of the signed region [0, 165) is protected; try a few.
    for position in [1usize, 5, 70, 133, 164] {
        let tampered = tamper(&session_key, position);
        assert!(matches!(
            InboundGroupSession::new(tampered),
            Err(SessoinCreationError::Signature)
        ));
    }
}

#[test]
fn session_key_version_mismatch() {
    let keypair = Ed25519Keypair::from_secret_key(&[1u8; 32]);
    let seed = [0u8; 128];
    let session_key = serialize_session_key(0, &seed, &keypair);
    assert!(InboundGroupSession::new(session_key.clone()).is_ok());

    let mut bytes = base64_decode(&session_key).unwrap();
    bytes[0] = 2;
    let with_wrong_version = base64_encode(&bytes);
    assert!(matches!(
        InboundGroupSession::new(with_wrong_version),
        Err(SessoinCreationError::Version(1, 2))
    ));
}

#[test]
fn session_key_truncated() {
    let keypair = Ed25519Keypair::new();
    let seed = [5u8; 128];
    let session_key = serialize_session_key(0, &seed, &keypair);
    let mut bytes = base64_decode(&session_key).unwrap();
    bytes.truncate(100);
    assert!(matches!(
        InboundGroupSession::new(base64_encode(&bytes)),
        Err(SessoinCreationError::Read)
    ));
    assert!(matches!(
        InboundGroupSession::new(base64_encode(&[])),
        Err(SessoinCreationError::Read)
    ));
}

#[test]
fn session_key_invalid_base64() {
    assert!(matches!(
        InboundGroupSession::new("not valid base64!".to_string()),
        Err(SessoinCreationError::Base64(_))
    ));
}

#[test]
fn out_of_order_indices_all_decrypt() {
    let keypair = Ed25519Keypair::new();
    let seed = [11u8; 128];
    let mut session = make_session(&keypair, &seed, 0);

    let at_five = seal(&keypair, &seed, 0, 5, "message five");
    let at_three = seal(&keypair, &seed, 0, 3, "message three");
    let at_zero = seal(&keypair, &seed, 0, 0, "message zero");

    let decrypted = session.decrypt(&at_five).unwrap();
    assert_eq!(decrypted.plaintext, "message five");
    assert_eq!(decrypted.message_index, 5);

    let decrypted = session.decrypt(&at_three).unwrap();
    assert_eq!(decrypted.plaintext, "message three");
    assert_eq!(decrypted.message_index, 3);

    let decrypted = session.decrypt(&at_zero).unwrap();
    assert_eq!(decrypted.plaintext, "message zero");
    assert_eq!(decrypted.message_index, 0);

    // The initial ratchet is retained: index 0 still decrypts a second time.
    let at_zero_again = seal(&keypair, &seed, 0, 0, "message zero");
    let decrypted = session.decrypt(&at_zero_again).unwrap();
    assert_eq!(decrypted.plaintext, "message zero");
}

#[test]
fn index_before_first_known_is_rejected_without_state_change() {
    let keypair = Ed25519Keypair::new();
    let seed = [13u8; 128];
    let mut session = make_session(&keypair, &seed, 5);

    let too_early = seal(&keypair, &seed, 5, 2, "too early");
    assert!(matches!(
        session.decrypt(&too_early),
        Err(DecryptionError::UnknownMessageIndex(5, 2))
    ));

    // The session remains usable for reachable indices afterwards.
    let at_seven = seal(&keypair, &seed, 5, 7, "message seven");
    assert_eq!(session.decrypt(&at_seven).unwrap().plaintext, "message seven");
}

#[test]
fn tampered_message_regions_fail_with_one_error() {
    let keypair = Ed25519Keypair::new();
    let seed = [17u8; 128];
    let mut session = make_session(&keypair, &seed, 0);

    let sealed = seal(&keypair, &seed, 0, 1, "payload");
    let total = base64_decode(&sealed).unwrap().len();

    // Ciphertext, MAC and signature bytes are all under the signature, so a
    // flip in any of them is caught by the signature check, never a silent
    // success or a different plaintext.
    let in_ciphertext = tamper(&sealed, 4);
    assert!(matches!(session.decrypt(&in_ciphertext), Err(DecryptionError::Signature)));

    let in_mac = tamper(&sealed, total - 72);
    assert!(matches!(session.decrypt(&in_mac), Err(DecryptionError::Signature)));

    let in_signature = tamper(&sealed, total - 1);
    assert!(matches!(session.decrypt(&in_signature), Err(DecryptionError::Signature)));

    // The untampered message still decrypts.
    assert_eq!(session.decrypt(&sealed).unwrap().plaintext, "payload");
}

#[test]
fn wrong_mac_with_valid_signature_fails_mac_check() {
    let keypair = Ed25519Keypair::new();
    let seed = [19u8; 128];
    let mut session = make_session(&keypair, &seed, 0);

    // Sign a body whose MAC bytes are wrong: the signature passes, the MAC
    // check reports the forgery.
    let mut ratchet = Ratchet::from_bytes(seed, 0);
    ratchet.advance_to(2);
    let cipher = Cipher::new_megolm(ratchet.as_bytes());
    let ciphertext = cipher.encrypt(b"payload");
    let mut body: Vec<u8> = Vec::new();
    push_u32_le(&mut body, 2);
    push_bytes(&mut body, &ciphertext);
    let mut mac = cipher.compute_mac(&body);
    mac[0] ^= 0x01;
    push_bytes(&mut body, &mac);
    let signature = keypair.sign(&body);
    push_bytes(&mut body, &signature.to_bytes());
    let sealed = base64_encode(&body);

    assert!(matches!(session.decrypt(&sealed), Err(DecryptionError::InvalidMAC)));
}

#[test]
fn message_decode_and_base64_errors() {
    let keypair = Ed25519Keypair::new();
    let seed = [23u8; 128];
    let mut session = make_session(&keypair, &seed, 0);

    // Too short for the message layout.
    let short = base64_encode(&[1, 2, 3]);
    assert!(matches!(session.decrypt(&short), Err(DecryptionError::DecodeError)));

    // Not base64 at all.
    assert!(matches!(session.decrypt("!!!"), Err(DecryptionError::Base64(_))));
}

#[test]
fn foreign_signing_key_is_rejected() {
    let keypair = Ed25519Keypair::new();
    let other_keypair = Ed25519Keypair::new();
    let seed = [29u8; 128];
    let mut session = make_session(&keypair, &seed, 0);

    let sealed_by_other = seal(&other_keypair, &seed, 0, 1, "forged");
    assert!(matches!(session.decrypt(&sealed_by_other), Err(DecryptionError::Signature)));
}

#[test]
fn invalid_utf8_plaintext_is_replaced_not_rejected() {
    let keypair = Ed25519Keypair::new();
    let seed = [31u8; 128];
    let mut session = make_session(&keypair, &seed, 0);

    let sealed = seal_bytes(&keypair, &seed, 0, 0, &[0xff, b'A']);
    let decrypted = session.decrypt(&sealed).unwrap();
    assert_eq!(decrypted.plaintext, "\u{FFFD}A");
}

#[test]
fn export_at_resolves_ratchet_like_decrypt() {
    let keypair = Ed25519Keypair::new();
    let seed = [37u8; 128];
    let mut session = make_session(&keypair, &seed, 3);

    assert!(session.export_at(1).is_none());

    let exported = session.export_at(3).unwrap();
    assert_eq!(exported.message_index, 3);
    assert_eq!(&exported.ratchet, Ratchet::from_bytes(seed, 3).as_bytes());
    assert_eq!(exported.signing_key, keypair.public_key());

    let exported = session.export_at(6).unwrap();
    assert_eq!(exported.message_index, 6);
    let mut expected = Ratchet::from_bytes(seed, 3);
    expected.advance_to(6);
    assert_eq!(&exported.ratchet, expected.as_bytes());
}

#[test]
fn concrete_scenario_zero_seed_version_one() {
    let keypair = Ed25519Keypair::from_secret_key(&[1u8; 32]);
    let seed = [0u8; 128];
    let session_key = serialize_session_key(0, &seed, &keypair);

    let session = InboundGroupSession::new(session_key.clone()).unwrap();
    assert_eq!(session.first_known_index(), 0);

    let mut bytes = base64_decode(&session_key).unwrap();
    assert_eq!(bytes[0], 1);
    assert_eq!(bytes.len(), 229);
    bytes[0] = 2;
    assert!(matches!(
        InboundGroupSession::new(base64_encode(&bytes)),
        Err(SessoinCreationError::Version(1, 2))
    ));
}

#[test]
fn verified_pipeline_round_trip_witness() {
    let keypair = Ed25519Keypair::from_secret_key(&[41u8; 32]);
    let seed = [2u8; 128];
    let mut session = make_session(&keypair, &seed, 0);

    let mut ratchet = Ratchet::from_bytes(seed, 0);
    ratchet.advance_to(4);
    let decrypted = megolm_inbound::inbound_group_session::seal_then_decrypt_round_trip(
        &mut session,
        &keypair,
        &ratchet,
        b"round trip",
    );
    assert_eq!(decrypted.message_index, 4);
    assert_eq!(decrypted.plaintext, "round trip");
}

#[test]
fn session_key_with_trailing_bytes_is_rejected() {
    let keypair = Ed25519Keypair::new();
    let seed = [43u8; 128];
    let session_key = serialize_session_key(0, &seed, &keypair);
    let mut bytes = base64_decode(&session_key).unwrap();
    bytes.push(0);
    assert!(matches!(
        InboundGroupSession::new(base64_encode(&bytes)),
        Err(SessoinCreationError::Read)
    ));
}
