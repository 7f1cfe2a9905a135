//! Sealing a vault payload into a `.cista` file and opening it again.
//!
//! The payload is the vault's serialized (JSON) form; turning a vault into
//! those bytes and back is left to the caller.
use crate::cipher::{
    decrypt, encrypt, generate_nonce, spec_fits_block_counter, spec_keystream_overrun,
    spec_xchacha_open, spec_xchacha_seal, TAG_LEN,
};
use crate::format::{
    lemma_file_round_trip, lemma_header_bytes_of_read, lemma_header_round_trip, spec_file_bytes,
    spec_file_parses, spec_header_bytes, spec_stored_ct_len, AeadId, CistaFile, KdfId,
    VaultHeader, CURRENT_FORMAT_VERSION, FILE_PREFIX_LEN, HEADER_LEN, NONCE_LEN, SALT_LEN,
};
use crate::kdf::{
    derive_key, spec_argon2id, spec_inputs_valid, spec_params_valid, ARGON2_ITERATIONS,
    ARGON2_MEMORY_KIB, ARGON2_PARALLELISM,
};
use crate::{CoreError, CoreResult};
use chacha20poly1305::aead::rand_core::RngCore;
use chacha20poly1305::aead::OsRng;
use vstd::bytes::*;
use vstd::prelude::*;

verus! {

/// Draws 16 random bytes from the operating system.
///
/// Calls `OsRng.fill_bytes` (rand_core, re-exported by chacha20poly1305's
/// `aead`); nothing is promised of the value.
#[verifier::external_body]
fn random_salt() -> (salt: [u8; SALT_LEN]) {
    let mut salt = [0u8; SALT_LEN];
    OsRng.fill_bytes(&mut salt);
    salt
}

/// The header that sealing writes: current format version, Argon2id with the
/// built-in costs, XChaCha20-Poly1305, and the given salt and nonce.
pub open spec fn spec_seal_header(salt: [u8; SALT_LEN], nonce: [u8; NONCE_LEN]) -> VaultHeader {
    VaultHeader {
        format_version: CURRENT_FORMAT_VERSION,
        kdf_id: KdfId::Argon2id,
        kdf_memory_kib: ARGON2_MEMORY_KIB,
        kdf_iterations: ARGON2_ITERATIONS,
        kdf_parallelism: ARGON2_PARALLELISM,
        salt,
        aead_id: AeadId::XChaCha20Poly1305,
        nonce,
    }
}

/// The file that sealing `plaintext` under `password` with this salt and
/// nonce produces: the header, authenticated as associated data, followed by
/// the ciphertext under the Argon2id-derived key.
pub open spec fn spec_sealed_file(
    plaintext: Seq<u8>,
    password: Seq<u8>,
    salt: [u8; SALT_LEN],
    nonce: [u8; NONCE_LEN],
) -> Seq<u8> {
    let h = spec_seal_header(salt, nonce);
    let key = spec_argon2id(
        password,
        salt@,
        ARGON2_MEMORY_KIB,
        ARGON2_ITERATIONS,
        ARGON2_PARALLELISM,
    );
    spec_file_bytes(h, spec_xchacha_seal(key, nonce@, plaintext, spec_header_bytes(h)))
}

/// What opening the file `data` with `password` yields.
pub open spec fn spec_open(data: Seq<u8>, password: Seq<u8>) -> Result<Seq<u8>, CoreError> {
    if !spec_file_parses(data) {
        Err(CoreError::InvalidFormat)
    } else {
        let rest = data.subrange(8, data.len() as int);
        let version = spec_u16_from_le_bytes(rest.subrange(0, 2));
        let m = spec_u32_from_le_bytes(rest.subrange(3, 7));
        let t = spec_u32_from_le_bytes(rest.subrange(7, 11));
        let p = spec_u32_from_le_bytes(rest.subrange(11, 15));
        let salt = rest.subrange(15, 31);
        let nonce = rest.subrange(32, 56);
        let ct = data.subrange(FILE_PREFIX_LEN as int, FILE_PREFIX_LEN + spec_stored_ct_len(data));
        if version != CURRENT_FORMAT_VERSION {
            Err(CoreError::UnsupportedVersion(version))
        } else if !spec_params_valid(m, t, p) {
            Err(CoreError::InvalidFormat)
        } else if !spec_inputs_valid(password, salt) {
            Err(CoreError::Unlock)
        } else {
            match spec_xchacha_open(
                spec_argon2id(password, salt, m, t, p),
                nonce,
                ct,
                rest.subrange(0, HEADER_LEN as int),
            ) {
                Some(plaintext) => Ok(plaintext),
                None => Err(CoreError::Unlock),
            }
        }
    }
}

/// The bytes of a byte-vector result.
pub open spec fn spec_result_bytes(r: CoreResult<Vec<u8>>) -> Result<Seq<u8>, CoreError> {
    match r {
        Ok(v) => Ok(v@),
        Err(e) => Err(e),
    }
}

/// Seals `plaintext` under `password` with the given salt and nonce. What it
/// writes, [`open`] reads back with the same password.
pub fn seal_with(
    plaintext: &[u8],
    password: &[u8],
    salt: [u8; SALT_LEN],
    nonce: [u8; NONCE_LEN],
) -> (r: CoreResult<Vec<u8>>)
    requires
        !spec_keystream_overrun(plaintext@.len()),
    ensures
        r is Ok <==> password@.len() <= u32::MAX && spec_fits_block_counter(plaintext@.len()),
        r matches Err(e) ==> e is Unlock,
        r matches Ok(b) ==> b@ == spec_sealed_file(plaintext@, password@, salt, nonce),
        r matches Ok(b) ==> b@.len() == FILE_PREFIX_LEN + plaintext@.len() + TAG_LEN,
        r matches Ok(b) ==> (plaintext@.len() + TAG_LEN <= u32::MAX ==> spec_stored_ct_len(b@)
            == plaintext@.len() + TAG_LEN),
        r matches Ok(b) ==> (plaintext@.len() + TAG_LEN <= u32::MAX ==> spec_open(b@, password@)
            == Ok::<Seq<u8>, CoreError>(plaintext@)),
{
    let key = derive_key(
        password,
        salt.as_slice(),
        ARGON2_MEMORY_KIB,
        ARGON2_ITERATIONS,
        ARGON2_PARALLELISM,
    )?;
    let header = VaultHeader {
        format_version: CURRENT_FORMAT_VERSION,
        kdf_id: KdfId::Argon2id,
        kdf_memory_kib: ARGON2_MEMORY_KIB,
        kdf_iterations: ARGON2_ITERATIONS,
        kdf_parallelism: ARGON2_PARALLELISM,
        salt,
        aead_id: AeadId::XChaCha20Poly1305,
        nonce,
    };
    let aad = header.to_bytes();
    let ciphertext = encrypt(&key, &nonce, plaintext, aad.as_slice())?;
    let ghost ct = ciphertext@;
    let file = CistaFile { header, ciphertext };
    let bytes = file.to_bytes();
    proof {
        let h = spec_seal_header(salt, nonce);
        assert(file.header == h);
        assert(bytes@ == spec_file_bytes(h, ct));
        lemma_auto_spec_u16_to_from_le_bytes();
        lemma_auto_spec_u32_to_from_le_bytes();
        if plaintext@.len() + TAG_LEN <= u32::MAX {
            lemma_file_round_trip(h, ct);
            lemma_header_round_trip(h);
            let rest = bytes@.subrange(8, bytes@.len() as int);
            lemma_header_bytes_of_read(h, rest);
        }
    }
    Ok(bytes)
}

/// Seals `plaintext` under `password` with a fresh random salt and nonce.
pub fn seal(plaintext: &[u8], password: &[u8]) -> (r: CoreResult<Vec<u8>>)
    requires
        !spec_keystream_overrun(plaintext@.len()),
    ensures
        r is Ok <==> password@.len() <= u32::MAX && spec_fits_block_counter(plaintext@.len()),
        r matches Err(e) ==> e is Unlock,
        r matches Ok(b) ==> exists|salt: [u8; SALT_LEN], nonce: [u8; NONCE_LEN]|
            b@ == #[trigger] spec_sealed_file(plaintext@, password@, salt, nonce),
        r matches Ok(b) ==> b@.len() == FILE_PREFIX_LEN + plaintext@.len() + TAG_LEN,
        r matches Ok(b) ==> (plaintext@.len() + TAG_LEN <= u32::MAX ==> spec_stored_ct_len(b@)
            == plaintext@.len() + TAG_LEN),
        r matches Ok(b) ==> (plaintext@.len() + TAG_LEN <= u32::MAX ==> spec_open(b@, password@)
            == Ok::<Seq<u8>, CoreError>(plaintext@)),
{
    let salt = random_salt();
    let nonce = generate_nonce();
    seal_with(plaintext, password, salt, nonce)
}

/// Opens a `.cista` file: parses it, checks the format version, derives the
/// key from `password` and the stored parameters, and decrypts the payload
/// with the header as associated data.
pub fn open(data: &[u8], password: &[u8]) -> (r: CoreResult<Vec<u8>>)
    ensures
        spec_result_bytes(r) == spec_open(data@, password@),
{
    let file = CistaFile::from_bytes(data)?;
    let ghost rest = data@.subrange(8, data@.len() as int);
    if file.header.format_version != CURRENT_FORMAT_VERSION {
        return Err(CoreError::UnsupportedVersion(file.header.format_version));
    }
    let key = derive_key(
        password,
        file.header.salt.as_slice(),
        file.header.kdf_memory_kib,
        file.header.kdf_iterations,
        file.header.kdf_parallelism,
    )?;
    let aad = file.header.to_bytes();
    proof {
        lemma_header_bytes_of_read(file.header, rest);
    }
    let plaintext = decrypt(&key, &file.header.nonce, file.ciphertext.as_slice(), aad.as_slice())?;
    Ok(plaintext)
}

} // verus!
