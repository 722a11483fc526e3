//! Round-trip, nonce-freshness and rejection behaviour of the
//! encryption subsystem, exercised with the real key derivation and
//! cipher.

use selfspy_core::CryptoError;
use selfspy_core::Encryptor;

#[test]
fn round_trip_returns_original_bytes() {
    let enc = Encryptor::new("correct horse battery staple").unwrap();
    let plaintext = b"the quick brown fox".to_vec();
    let payload = enc.encrypt(&plaintext).unwrap();
    let opened = enc.decrypt(&payload).unwrap();
    assert_eq!(opened, plaintext);
}

#[test]
fn round_trip_of_empty_plaintext() {
    let enc = Encryptor::new("pw").unwrap();
    let plaintext: Vec<u8> = Vec::new();
    let opened = enc.round_trip(&plaintext);
    assert_eq!(opened, plaintext);
}

#[test]
fn round_trip_helper_matches_input() {
    let enc = Encryptor::new("pw").unwrap();
    let plaintext = vec![0u8, 1, 2, 250, 255];
    assert_eq!(enc.round_trip(&plaintext), plaintext);
}

#[test]
fn encrypting_twice_yields_different_payloads() {
    let enc = Encryptor::new("pw").unwrap();
    let plaintext = b"same plaintext".to_vec();
    let first = enc.encrypt(&plaintext).unwrap();
    let second = enc.encrypt(&plaintext).unwrap();
    assert_ne!(first, second);
}

#[test]
fn decrypt_rejects_input_shorter_than_nonce() {
    let enc = Encryptor::new("pw").unwrap();
    let short = vec![0u8; 11];
    assert_eq!(enc.decrypt(&short), Err(CryptoError::TruncatedPayload));
    let empty: Vec<u8> = Vec::new();
    assert_eq!(enc.decrypt(&empty), Err(CryptoError::TruncatedPayload));
}

#[test]
fn decrypt_rejects_tampered_payload() {
    let enc = Encryptor::new("pw").unwrap();
    let mut payload = enc.encrypt(b"sensitive").unwrap();
    let last = payload.len() - 1;
    payload[last] ^= 0x01;
    assert_eq!(enc.decrypt(&payload), Err(CryptoError::Tampered));
}

#[test]
fn decrypt_rejects_payload_under_another_key() {
    let enc_a = Encryptor::new("password a").unwrap();
    let enc_b = Encryptor::new("password b").unwrap();
    let payload = enc_a.encrypt(b"for a only").unwrap();
    assert_eq!(enc_b.decrypt(&payload), Err(CryptoError::Tampered));
}

#[test]
fn same_passphrase_and_salt_reopen_earlier_payloads() {
    let enc = Encryptor::new("persisted passphrase").unwrap();
    let payload = enc.encrypt(b"written before a restart").unwrap();
    let salt = enc.salt().clone();
    let revived = Encryptor::from_salt("persisted passphrase", &salt).unwrap();
    assert_eq!(revived.decrypt(&payload).unwrap(), b"written before a restart".to_vec());
}

#[test]
fn from_salt_rejects_wrong_salt_length() {
    let short_salt = vec![7u8; 15];
    assert_eq!(
        Encryptor::from_salt("pw", &short_salt).err(),
        Some(CryptoError::KeyDerivation)
    );
}

#[test]
fn payload_is_nonce_plus_ciphertext_and_tag() {
    let enc = Encryptor::new("pw").unwrap();
    let plaintext = b"abcdef".to_vec();
    let payload = enc.encrypt(&plaintext).unwrap();
    assert_eq!(payload.len(), plaintext.len() + 12 + 16);
}
