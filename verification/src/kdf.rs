//! Argon2id key derivation from the master password.
use crate::{CoreError, CoreResult};
use vstd::prelude::*;

verus! {

pub const ARGON2_MEMORY_KIB: u32 = 65536;

pub const ARGON2_ITERATIONS: u32 = 3;

pub const ARGON2_PARALLELISM: u32 = 1;

pub const KEY_LEN: usize = 32;

/// Largest parallelism Argon2 accepts (2^24 - 1 lanes).
pub const MAX_PARALLELISM: u32 = 16777215;

/// Argon2 accepts these cost parameters: at least 8 KiB of memory and 8 KiB
/// per lane, at least one pass, between 1 and 2^24 - 1 lanes.
pub open spec fn spec_params_valid(memory_kib: u32, iterations: u32, parallelism: u32) -> bool {
    &&& memory_kib >= 8
    &&& memory_kib >= 8 * parallelism
    &&& iterations >= 1
    &&& parallelism >= 1
    &&& parallelism <= MAX_PARALLELISM
}

/// Argon2 accepts these inputs: a password of at most 2^32 - 1 bytes and a
/// salt of 8 to 2^32 - 1 bytes.
pub open spec fn spec_inputs_valid(password: Seq<u8>, salt: Seq<u8>) -> bool {
    &&& password.len() <= u32::MAX
    &&& 8 <= salt.len() <= u32::MAX
}

/// The 32-byte Argon2id (version 0x13) output for these inputs.
pub uninterp spec fn spec_argon2id(
    password: Seq<u8>,
    salt: Seq<u8>,
    memory_kib: u32,
    iterations: u32,
    parallelism: u32,
) -> Seq<u8>;

/// Calls `argon2::Params::new(m, t, p, Some(32))` and then
/// `Argon2::new(Argon2id, V0x13, params).hash_password_into(password, salt, &mut key)`.
///
/// Claimed of argon2 0.5.3: with valid parameters `Params::new` succeeds, and
/// `hash_password_into` fails exactly when the password or salt length is out
/// of range (`verify_inputs`); otherwise the key is the named Argon2id output.
/// The memory it allocates is not bounded here: an allocation failure aborts.
#[verifier::external_body]
fn argon2id_hash(
    password: &[u8],
    salt: &[u8],
    memory_kib: u32,
    iterations: u32,
    parallelism: u32,
) -> (r: Option<[u8; KEY_LEN]>)
    requires
        spec_params_valid(memory_kib, iterations, parallelism),
    ensures
        r is Some <==> spec_inputs_valid(password@, salt@),
        r matches Some(k) ==> k@ == spec_argon2id(
            password@,
            salt@,
            memory_kib,
            iterations,
            parallelism,
        ),
{
    let params = argon2::Params::new(memory_kib, iterations, parallelism, Some(KEY_LEN)).ok()?;
    let argon2 = argon2::Argon2::new(argon2::Algorithm::Argon2id, argon2::Version::V0x13, params);
    let mut key = [0u8; KEY_LEN];
    argon2.hash_password_into(password, salt, &mut key).ok()?;
    Some(key)
}

/// Derives the 32-byte vault key. Unusable cost parameters give
/// `InvalidFormat`; a password or salt Argon2 refuses gives `Unlock`.
pub fn derive_key(
    password: &[u8],
    salt: &[u8],
    memory_kib: u32,
    iterations: u32,
    parallelism: u32,
) -> (r: CoreResult<[u8; KEY_LEN]>)
    ensures
        !spec_params_valid(memory_kib, iterations, parallelism) ==> r matches Err(
            CoreError::InvalidFormat,
        ),
        spec_params_valid(memory_kib, iterations, parallelism) && !spec_inputs_valid(
            password@,
            salt@,
        ) ==> r matches Err(CoreError::Unlock),
        r is Ok <==> spec_params_valid(memory_kib, iterations, parallelism) && spec_inputs_valid(
            password@,
            salt@,
        ),
        r matches Ok(k) ==> k@ == spec_argon2id(
            password@,
            salt@,
            memory_kib,
            iterations,
            parallelism,
        ),
{
    if parallelism < 1 || parallelism > MAX_PARALLELISM || iterations < 1 || memory_kib < 8
        || memory_kib < 8 * parallelism {
        return Err(CoreError::InvalidFormat);
    }
    match argon2id_hash(password, salt, memory_kib, iterations, parallelism) {
        Some(key) => Ok(key),
        None => Err(CoreError::Unlock),
    }
}

} // verus!
