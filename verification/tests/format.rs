use cista::format::{
    AeadId, CistaFile, KdfId, VaultHeader, CURRENT_FORMAT_VERSION, HEADER_LEN, MAGIC, NONCE_LEN,
    SALT_LEN,
};
use cista::CoreError;

fn sample_header() -> VaultHeader {
    VaultHeader {
        format_version: CURRENT_FORMAT_VERSION,
        kdf_id: KdfId::Argon2id,
        kdf_memory_kib: 19_456,
        kdf_iterations: 2,
        kdf_parallelism: 1,
        salt: [42u8; SALT_LEN],
        aead_id: AeadId::XChaCha20Poly1305,
        nonce: [7u8; NONCE_LEN],
    }
}

#[test]
fn header_round_trip() {
    let header = VaultHeader {
        format_version: CURRENT_FORMAT_VERSION,
        kdf_id: KdfId::Argon2id,
        kdf_memory_kib: 19_456, // example
        kdf_iterations: 2,
        kdf_parallelism: 1,
        salt: [42u8; SALT_LEN],
        aead_id: AeadId::XChaCha20Poly1305,
        nonce: [7u8; NONCE_LEN],
    };

    let bytes = header.to_bytes();
    let (decoded, consumed) =
        VaultHeader::from_bytes(&bytes).expect("should decode a valid header");
    assert_eq!(header, decoded);
    assert_eq!(consumed, bytes.len());
}

#[test]
fn header_from_truncated_bytes_fails() {
    let header = VaultHeader {
        format_version: CURRENT_FORMAT_VERSION,
        kdf_id: KdfId::Argon2id,
        kdf_memory_kib: 19_456,
        kdf_iterations: 2,
        kdf_parallelism: 1,
        salt: [42u8; SALT_LEN],
        aead_id: AeadId::XChaCha20Poly1305,
        nonce: [7u8; NONCE_LEN],
    };

    let bytes = header.to_bytes();
    let truncated = &bytes[..bytes.len() - 5]; // quit last-5 bytes

    let result = VaultHeader::from_bytes(truncated);
    assert!(result.is_err());
}

#[test]
fn kdf_id_rejects_unknown_value() {
    let result = KdfId::try_from(99u8);
    assert!(result.is_err());
}

#[test]
fn known_identifiers_decode() {
    assert_eq!(KdfId::try_from(1u8).unwrap(), KdfId::Argon2id);
    assert_eq!(AeadId::try_from(1u8).unwrap(), AeadId::XChaCha20Poly1305);
    assert!(matches!(AeadId::try_from(0u8), Err(CoreError::InvalidFormat)));
}

#[test]
fn header_layout_is_little_endian() {
    let bytes = sample_header().to_bytes();
    assert_eq!(bytes.len(), HEADER_LEN);
    assert_eq!(&bytes[0..2], &[1, 0]);
    assert_eq!(bytes[2], 1);
    assert_eq!(&bytes[3..7], &19_456u32.to_le_bytes());
    assert_eq!(&bytes[7..11], &[2, 0, 0, 0]);
    assert_eq!(&bytes[11..15], &[1, 0, 0, 0]);
    assert_eq!(&bytes[15..31], &[42u8; 16]);
    assert_eq!(bytes[31], 1);
    assert_eq!(&bytes[32..56], &[7u8; 24]);
}

#[test]
fn header_with_unknown_aead_fails() {
    let mut bytes = sample_header().to_bytes();
    bytes[31] = 2;
    assert!(matches!(VaultHeader::from_bytes(&bytes), Err(CoreError::InvalidFormat)));
}

#[test]
fn header_ignores_trailing_bytes() {
    let mut bytes = sample_header().to_bytes();
    bytes.extend_from_slice(&[9, 9, 9]);
    let (decoded, consumed) = VaultHeader::from_bytes(&bytes).unwrap();
    assert_eq!(decoded, sample_header());
    assert_eq!(consumed, HEADER_LEN);
}

#[test]
fn file_round_trip() {
    let file = CistaFile { header: sample_header(), ciphertext: vec![1, 2, 3, 4, 5] };
    let bytes = file.to_bytes();
    assert_eq!(&bytes[..8], &MAGIC);
    assert_eq!(bytes.len(), 8 + HEADER_LEN + 4 + 5);
    let parsed = CistaFile::from_bytes(&bytes).unwrap();
    assert_eq!(parsed.header, sample_header());
    assert_eq!(parsed.ciphertext, vec![1, 2, 3, 4, 5]);
}

#[test]
fn file_with_bad_magic_fails() {
    let file = CistaFile { header: sample_header(), ciphertext: vec![1, 2, 3] };
    let mut bytes = file.to_bytes();
    bytes[0] = b'X';
    assert!(matches!(CistaFile::from_bytes(&bytes), Err(CoreError::InvalidFormat)));
    assert!(matches!(CistaFile::from_bytes(&bytes[..5]), Err(CoreError::InvalidFormat)));
}

#[test]
fn file_with_short_ciphertext_fails() {
    let file = CistaFile { header: sample_header(), ciphertext: vec![1, 2, 3] };
    let bytes = file.to_bytes();
    assert!(matches!(
        CistaFile::from_bytes(&bytes[..bytes.len() - 1]),
        Err(CoreError::InvalidFormat)
    ));
}
