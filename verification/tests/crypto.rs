use cista::cipher::{decrypt, encrypt};
use cista::format::NONCE_LEN;
use cista::kdf::derive_key;

#[test]
fn encrypt_decrypt_round_trip() {
    let key = [7u8; 32];
    let nonce = [3u8; NONCE_LEN];
    let aad = b"some header bytes";
    let plaintext = b"super secret vault contents";

    let ciphertext = encrypt(&key, &nonce, plaintext, aad).expect("encryption should succeed");
    let decrypted = decrypt(&key, &nonce, &ciphertext, aad).expect("decryption should succeed");

    assert_eq!(decrypted, plaintext);
}

#[test]
fn decrypt_fails_with_wrong_key() {
    let key = [7u8; 32];
    let wrong_key = [8u8; 32];
    let nonce = [3u8; NONCE_LEN];
    let aad = b"some header bytes";
    let plaintext = b"super secret vault contents";

    let ciphertext = encrypt(&key, &nonce, plaintext, aad).expect("encryption should succeed");
    let result = decrypt(&wrong_key, &nonce, &ciphertext, aad);

    assert!(result.is_err());
}

#[test]
fn decrypt_fails_if_aad_is_tampered() {
    let key = [7u8; 32];
    let nonce = [3u8; NONCE_LEN];
    let plaintext = b"super secret vault contents";

    let ciphertext = encrypt(&key, &nonce, plaintext, b"authentic header")
        .expect("encryption should succeed");
    let result = decrypt(&key, &nonce, &ciphertext, b"tampered header!");

    assert!(result.is_err());
}

#[test]
fn decrypt_fails_if_ciphertext_is_tampered() {
    let key = [7u8; 32];
    let nonce = [3u8; NONCE_LEN];
    let aad = b"some header bytes";
    let plaintext = b"super secret vault contents";

    let mut ciphertext =
        encrypt(&key, &nonce, plaintext, aad).expect("encryption should succeed");
    let last = ciphertext.len() - 1;
    ciphertext[last] ^= 0xFF; // flip bits in the last byte

    let result = decrypt(&key, &nonce, &ciphertext, aad);
    assert!(result.is_err());
}

#[test]
fn ciphertext_is_tag_longer_than_plaintext() {
    let key = [1u8; 32];
    let nonce = [2u8; NONCE_LEN];
    let ciphertext = encrypt(&key, &nonce, b"abc", b"").expect("encryption should succeed");
    assert_eq!(ciphertext.len(), 3 + cista::cipher::TAG_LEN);
    assert_ne!(&ciphertext[..3], b"abc");
}

#[test]
fn decrypt_of_too_short_input_fails_with_unlock() {
    let key = [1u8; 32];
    let nonce = [2u8; NONCE_LEN];
    let result = decrypt(&key, &nonce, b"short", b"");
    assert!(matches!(result, Err(cista::CoreError::Unlock)));
}

#[test]
fn derive_key_is_deterministic() {
    let salt = [1u8; 16];
    let key1 = derive_key(b"correct horse battery staple", &salt, 19_456, 2, 1)
        .expect("derivation should succeed");
    let key2 = derive_key(b"correct horse battery staple", &salt, 19_456, 2, 1)
        .expect("derivation should succeed");

    assert_eq!(key1, key2);
}

#[test]
fn different_passwords_produce_different_keys() {
    let salt = [1u8; 16];
    let key1 =
        derive_key(b"password one", &salt, 19_456, 2, 1).expect("derivation should succeed");
    let key2 =
        derive_key(b"password two", &salt, 19_456, 2, 1).expect("derivation should succeed");

    assert_ne!(key1, key2);
}

#[test]
fn different_salts_produce_different_keys() {
    let key1 = derive_key(b"same password", &[1u8; 16], 19_456, 2, 1)
        .expect("derivation should succeed");
    let key2 = derive_key(b"same password", &[2u8; 16], 19_456, 2, 1)
        .expect("derivation should succeed");

    assert_ne!(key1, key2);
}

#[test]
fn derive_key_rejects_unusable_parameters() {
    let salt = [1u8; 16];
    assert!(matches!(
        derive_key(b"pw", &salt, 4, 2, 1),
        Err(cista::CoreError::InvalidFormat)
    ));
    assert!(matches!(
        derive_key(b"pw", &salt, 64, 0, 1),
        Err(cista::CoreError::InvalidFormat)
    ));
    assert!(matches!(
        derive_key(b"pw", &salt, 64, 1, 0),
        Err(cista::CoreError::InvalidFormat)
    ));
    assert!(matches!(
        derive_key(b"pw", &salt, 64, 1, 9),
        Err(cista::CoreError::InvalidFormat)
    ));
    assert!(matches!(
        derive_key(b"pw", &salt, 64, 1, u32::MAX),
        Err(cista::CoreError::InvalidFormat)
    ));
}

#[test]
fn derive_key_rejects_short_salt() {
    assert!(matches!(
        derive_key(b"pw", &[1u8; 7], 64, 1, 1),
        Err(cista::CoreError::Unlock)
    ));
    assert!(derive_key(b"pw", &[1u8; 8], 64, 1, 1).is_ok());
}
