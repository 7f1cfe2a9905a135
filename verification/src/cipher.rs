//! XChaCha20-Poly1305 encryption of the vault payload.
use crate::format::NONCE_LEN;
use crate::{CoreError, CoreResult};
use chacha20poly1305::aead::{Aead, KeyInit, OsRng};
use chacha20poly1305::{AeadCore, XChaCha20Poly1305, XNonce};
use vstd::prelude::*;

verus! {

/// Length of the Poly1305 authentication tag appended to every ciphertext.
pub const TAG_LEN: usize = 16;

/// The ciphertext (with its tag appended) that XChaCha20-Poly1305 produces
/// for `plaintext` under `key`, `nonce` and associated data `aad`.
pub uninterp spec fn spec_xchacha_seal(
    key: Seq<u8>,
    nonce: Seq<u8>,
    plaintext: Seq<u8>,
    aad: Seq<u8>,
) -> Seq<u8>;

/// What XChaCha20-Poly1305 decryption of `ciphertext` yields: the plaintext
/// if the tag verifies, `None` otherwise.
pub uninterp spec fn spec_xchacha_open(
    key: Seq<u8>,
    nonce: Seq<u8>,
    ciphertext: Seq<u8>,
    aad: Seq<u8>,
) -> Option<Seq<u8>>;

/// A message is short enough for the 32-bit ChaCha20 block counter.
pub open spec fn spec_fits_block_counter(len: nat) -> bool {
    len / 64 < u32::MAX
}

/// A message of this length gets past the block-counter check but needs more
/// keystream than ChaCha20 has left after the block that keys Poly1305
/// (2^32 - 2 blocks of 64 bytes): the crate panics on it.
pub open spec fn spec_keystream_overrun(len: nat) -> bool {
    64 * (u32::MAX - 1) < len && len / 64 < u32::MAX
}

/// Draws a fresh random 24-byte nonce from the operating system.
///
/// Calls `XChaCha20Poly1305::generate_nonce(&mut OsRng)`; nothing is
/// promised of the value, which comes from the OS random source.
#[verifier::external_body]
pub fn generate_nonce() -> (nonce: [u8; NONCE_LEN]) {
    let nonce = XChaCha20Poly1305::generate_nonce(&mut OsRng);
    nonce.into()
}

/// Calls `XChaCha20Poly1305::new(key).encrypt(nonce, Payload { msg, aad })`.
///
/// Claimed of the crate (chacha20poly1305 0.10 `Cipher::encrypt_in_place_detached`
/// and aead's `encrypt_in_place`): it fails exactly when the message reaches
/// `u32::MAX` ChaCha20 blocks, and panics on the lengths just below that
/// for which the keystream runs out (left out by `requires`); otherwise the
/// result is the named ciphertext,
/// 16 bytes (the tag) longer than the message, and, as for any AEAD,
/// decrypting it under the same key, nonce and associated data gives the
/// message back.
#[verifier::external_body]
fn aead_encrypt(key: &[u8; 32], nonce: &[u8; NONCE_LEN], msg: &[u8], aad: &[u8]) -> (r: Option<
    Vec<u8>,
>)
    requires
        !spec_keystream_overrun(msg@.len()),
    ensures
        r is Some <==> spec_fits_block_counter(msg@.len()),
        r matches Some(c) ==> {
            &&& c@ == spec_xchacha_seal(key@, nonce@, msg@, aad@)
            &&& c@.len() == msg@.len() + TAG_LEN
            &&& spec_xchacha_open(key@, nonce@, c@, aad@) == Some(msg@)
        },
{
    let cipher = XChaCha20Poly1305::new(key.into());
    cipher.encrypt(XNonce::from_slice(nonce), chacha20poly1305::aead::Payload { msg, aad }).ok()
}

/// Calls `XChaCha20Poly1305::new(key).decrypt(nonce, Payload { msg, aad })`.
///
/// Claimed of the crate: the result is the named decryption, a function of
/// the four inputs (`None` when the tag does not verify). The crate panics
/// when the tag verifies on a ciphertext whose body (without the 16-byte tag)
/// has one of the lengths for which the keystream runs out; `requires` leaves
/// those lengths out.
#[verifier::external_body]
fn aead_decrypt(key: &[u8; 32], nonce: &[u8; NONCE_LEN], msg: &[u8], aad: &[u8]) -> (r: Option<
    Vec<u8>,
>)
    requires
        msg@.len() >= TAG_LEN ==> !spec_keystream_overrun((msg@.len() - TAG_LEN) as nat),
    ensures
        spec_opt_bytes(r) == spec_xchacha_open(key@, nonce@, msg@, aad@),
{
    let cipher = XChaCha20Poly1305::new(key.into());
    cipher.decrypt(XNonce::from_slice(nonce), chacha20poly1305::aead::Payload { msg, aad }).ok()
}

/// The bytes of an optional vector.
pub open spec fn spec_opt_bytes(o: Option<Vec<u8>>) -> Option<Seq<u8>> {
    match o {
        Some(v) => Some(v@),
        None => None,
    }
}

/// Encrypts `plaintext`, authenticating `aad` alongside it. Decrypting the
/// result with the same key, nonce and `aad` gives `plaintext` back.
pub fn encrypt(key: &[u8; 32], nonce: &[u8; NONCE_LEN], plaintext: &[u8], aad: &[u8]) -> (r:
    CoreResult<Vec<u8>>)
    requires
        !spec_keystream_overrun(plaintext@.len()),
    ensures
        r is Ok <==> spec_fits_block_counter(plaintext@.len()),
        r matches Ok(c) ==> {
            &&& c@ == spec_xchacha_seal(key@, nonce@, plaintext@, aad@)
            &&& c@.len() == plaintext@.len() + TAG_LEN
            &&& spec_xchacha_open(key@, nonce@, c@, aad@) == Some(plaintext@)
        },
        r matches Err(e) ==> e is Unlock,
{
    match aead_encrypt(key, nonce, plaintext, aad) {
        Some(c) => Ok(c),
        None => Err(CoreError::Unlock),
    }
}

/// Decrypts and authenticates `ciphertext`; fails with `Unlock` on a wrong
/// key, nonce, associated data or a tampered ciphertext.
pub fn decrypt(key: &[u8; 32], nonce: &[u8; NONCE_LEN], ciphertext: &[u8], aad: &[u8]) -> (r:
    CoreResult<Vec<u8>>)
    requires
        ciphertext@.len() >= TAG_LEN ==> !spec_keystream_overrun((ciphertext@.len() - TAG_LEN) as nat),
    ensures
        r matches Ok(p) ==> spec_xchacha_open(key@, nonce@, ciphertext@, aad@) == Some(p@),
        r is Err <==> spec_xchacha_open(key@, nonce@, ciphertext@, aad@) is None,
        r matches Err(e) ==> e is Unlock,
{
    match aead_decrypt(key, nonce, ciphertext, aad) {
        Some(p) => Ok(p),
        None => Err(CoreError::Unlock),
    }
}

} // verus!
