use sentinel::crypto::{decrypt_payload, encrypt_payload, frame_blob, resolve_master_key, MasterKey};
use sentinel::error::SentinelError;

const TEST_KEY: [u8; 32] = *b"sentinel-test-key-fixed-32-bytes";

#[test]
fn round_trip() {
    let key = TEST_KEY;
    let original = b"hello from IoT device";
    let blob = encrypt_payload(original, &key).unwrap();
    let recovered = decrypt_payload(&blob, &key).unwrap();
    assert_eq!(original.as_slice(), recovered.as_slice());
}

#[test]
fn decrypt_rejects_short_blob() {
    let key = TEST_KEY;
    let err = decrypt_payload(&[0u8; 5], &key).unwrap_err();
    assert!(err.to_message().contains("too short"));
}

#[test]
fn encrypt_output_is_longer_than_input() {
    let key = TEST_KEY;
    let plaintext = b"test";
    let blob = encrypt_payload(plaintext, &key).unwrap();
    // nonce (12) + ciphertext (input + 16-byte GCM tag)
    assert!(blob.len() > plaintext.len() + 12);
}

#[test]
fn wrong_key_fails_decryption() {
    let key = TEST_KEY;
    let blob = encrypt_payload(b"secret", &key).unwrap();

    let mut bad_key = key;
    bad_key[0] ^= 0xFF;
    assert!(decrypt_payload(&blob, &bad_key).is_err());
}

#[test]
fn sealed_blob_has_exact_layout_length() {
    let blob = encrypt_payload(b"test", &TEST_KEY).unwrap();
    assert_eq!(blob.len(), 12 + 4 + 16);
    let empty = encrypt_payload(b"", &TEST_KEY).unwrap();
    assert_eq!(empty.len(), 28);
    assert_eq!(decrypt_payload(&empty, &TEST_KEY).unwrap(), Vec::<u8>::new());
}

#[test]
fn two_encryptions_use_fresh_nonces() {
    let a = encrypt_payload(b"same", &TEST_KEY).unwrap();
    let b = encrypt_payload(b"same", &TEST_KEY).unwrap();
    assert_ne!(a[..12], b[..12]);
}

#[test]
fn tampered_blob_is_rejected_with_aead_error() {
    let mut blob = encrypt_payload(b"payload", &TEST_KEY).unwrap();
    let last = blob.len() - 1;
    blob[last] ^= 1;
    match decrypt_payload(&blob, &TEST_KEY) {
        Err(SentinelError::Crypto(m)) => assert_eq!(m, "aead::Error"),
        other => panic!("unexpected {:?}", other),
    }
}

#[test]
fn nonce_only_blob_is_rejected() {
    let err = decrypt_payload(&[7u8; 12], &TEST_KEY).unwrap_err();
    assert_eq!(err.to_message(), "Crypto error: aead::Error");
}

#[test]
fn short_blob_message_is_exact() {
    let err = decrypt_payload(&[0u8; 11], &TEST_KEY).unwrap_err();
    assert_eq!(err.to_message(), "Crypto error: blob too short to contain nonce");
}

#[test]
fn frame_blob_concatenates() {
    let nonce = [1u8; 12];
    let blob = frame_blob(&nonce, &[9, 8, 7]);
    let mut expected = vec![1u8; 12];
    expected.extend_from_slice(&[9, 8, 7]);
    assert_eq!(blob, expected);
}

#[test]
fn stored_hex_key_is_used() {
    let hex_key = "73656e74696e656c2d746573742d6b65792d66697865642d33322d6279746573";
    match resolve_master_key(Some(hex_key)) {
        MasterKey::Stored(k) => assert_eq!(k, TEST_KEY),
        MasterKey::Generated { .. } => panic!("stored key must be used"),
    }
    let upper = hex_key.to_uppercase();
    assert_eq!(resolve_master_key(Some(upper.as_str())).key(), TEST_KEY);
}

#[test]
fn missing_or_invalid_key_is_regenerated_and_read_back() {
    for stored in [None, Some("zz"), Some("abcd"), Some("not hex at all")] {
        match resolve_master_key(stored) {
            MasterKey::Generated { key, encoded } => {
                assert_eq!(encoded.len(), 64);
                assert!(encoded.chars().all(|c| c.is_ascii_hexdigit() && !c.is_ascii_uppercase()));
                // The persisted text is read back as the same key.
                match resolve_master_key(Some(encoded.as_str())) {
                    MasterKey::Stored(k) => assert_eq!(k, key),
                    MasterKey::Generated { .. } => panic!("persisted key must be read back"),
                }
            }
            MasterKey::Stored(_) => panic!("no valid key was stored"),
        }
    }
}
