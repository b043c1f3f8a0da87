use tego::keys::{keyblob_for_buffer, private_key_from_keyblob, HostKey, KeyError, ED25519_KEYBLOB_LENGTH, ED25519_KEYBLOB_SIZE};
use tor_interface::tor_crypto::Ed25519PrivateKey;

const KNOWN_BLOB: &str =
    "ED25519-V3:rP3u8mZaKohap0lKsB8Z8qXbXqK456JKKGONDBhV+gPBVKa2mHVQqnRTVuFXe3inU3YW6qvc7glYEwe9rK0LhQ==";

#[test]
fn key_blob_round_trips() {
    let key = private_key_from_keyblob(KNOWN_BLOB).unwrap();
    let blob = keyblob_for_buffer(&key, ED25519_KEYBLOB_SIZE).unwrap();
    assert_eq!(blob, KNOWN_BLOB);
    assert_eq!(blob.len(), ED25519_KEYBLOB_LENGTH);
    let again = private_key_from_keyblob(&blob).unwrap();
    assert_eq!(again.to_bytes(), key.to_bytes());
}

#[test]
fn key_bytes_are_the_keys() {
    let key = private_key_from_keyblob(KNOWN_BLOB).unwrap();
    let expected = Ed25519PrivateKey::from_key_blob(KNOWN_BLOB).unwrap().to_bytes();
    assert_eq!(key.to_bytes(), expected);
    assert_eq!(key.to_bytes()[0], 0xac);
}

#[test]
fn different_keys_write_different_blobs() {
    let a = HostKey::generate();
    let b = HostKey::generate();
    let blob_a = keyblob_for_buffer(&a, 100).unwrap();
    let blob_b = keyblob_for_buffer(&b, 100).unwrap();
    assert_ne!(blob_a, blob_b);
    assert_eq!(private_key_from_keyblob(&blob_a).unwrap().to_bytes(), a.to_bytes());
}

#[test]
fn key_blob_needs_room_for_terminator() {
    let key = HostKey::generate();
    assert!(matches!(keyblob_for_buffer(&key, 99), Err(KeyError::BufferTooSmall)));
    assert!(matches!(keyblob_for_buffer(&key, 0), Err(KeyError::BufferTooSmall)));
    let blob = keyblob_for_buffer(&key, 4096).unwrap();
    assert!(blob.starts_with("ED25519-V3:"));
    assert_eq!(blob.len(), 99);
}

#[test]
fn invalid_key_blob_is_refused() {
    assert!(matches!(private_key_from_keyblob("not a key"), Err(KeyError::InvalidKeyBlob)));
    assert!(matches!(private_key_from_keyblob(""), Err(KeyError::InvalidKeyBlob)));
}
