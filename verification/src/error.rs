//! Error types shared across the crate.
use crate::text::{decimal, spec_decimal, to_owned_string};
use vstd::prelude::*;

verus! {

/// `serde_json`'s error type, carried by [`CoreError::Serialization`].
#[verifier::external_type_specification]
#[verifier::external_body]
pub struct ExSerdeJsonError(serde_json::Error);

/// `std::io::Error`, carried by [`CoreError::Io`].
#[verifier::external_type_specification]
#[verifier::external_body]
pub struct ExIoError(std::io::Error);

/// Errors that can occur when working with a vault: creating entries,
/// (de)serializing data, or reading/writing an encrypted `.cista` file.
#[derive(Debug)]
pub enum CoreError {
    /// The entry name is empty once surrounding whitespace is removed.
    EmptyName,
    /// No entry carries the requested identifier.
    EntryNotFound,
    /// A vault file is already present at the target path.
    VaultAlreadyExists,
    /// The file is corrupted, truncated, or its parameters are unusable.
    InvalidFormat,
    /// The file declares a format version this build does not read.
    UnsupportedVersion(u16),
    /// Wrong master password or tampered ciphertext.
    Unlock,
    /// The decrypted payload could not be (de)serialized.
    Serialization(serde_json::Error),
    /// A filesystem operation failed.
    Io(std::io::Error),
    /// The password policy is not usable.
    InvalidPasswordPolicy,
    /// A password of length zero was requested.
    ZeroLength,
    /// Every character class of the policy is disabled or empty.
    EmptyCharset,
}

pub type CoreResult<T> = Result<T, CoreError>;

/// The message of an error whose text is fixed by its variant.
pub open spec fn spec_fixed_message(e: CoreError) -> Option<Seq<char>> {
    match e {
        CoreError::EmptyName => Some("entry name cannot be empty"@),
        CoreError::EntryNotFound => Some("no entry found with that identifier"@),
        CoreError::VaultAlreadyExists => Some("a vault already exists at this path"@),
        CoreError::InvalidFormat => Some("vault file is corrupted or has an unrecognized format"@),
        CoreError::UnsupportedVersion(v) => Some(
            "unsupported format version: "@ + spec_decimal(v as nat),
        ),
        CoreError::Unlock => Some("failed to unlock vault: wrong password or corrupted file"@),
        CoreError::Serialization(_) => None,
        CoreError::Io(_) => None,
        CoreError::InvalidPasswordPolicy => Some("invalid password policy"@),
        CoreError::ZeroLength => Some("password length must be greater than zero"@),
        CoreError::EmptyCharset => Some("password policy resulted in an empty character set"@),
    }
}

/// The text of an I/O error (`Display` of `std::io::Error`).
#[verifier::external_body]
pub(crate) fn io_error_text(e: &std::io::Error) -> String {
    e.to_string()
}

/// The text of a JSON error (`Display` of `serde_json::Error`).
#[verifier::external_body]
fn json_error_text(e: &serde_json::Error) -> String {
    e.to_string()
}

/// A message starting with `prefix` and going on with `rest`.
fn prefixed(prefix: &str, rest: String) -> (r: String)
    ensures
        r@ == prefix@ + rest@,
{
    let mut r = to_owned_string(prefix);
    r.append(rest.as_str());
    r
}

impl CoreError {
    /// The message shown to the user for this error. The messages of I/O and
    /// JSON errors end with the text of the underlying error.
    pub fn message(&self) -> (r: String)
        ensures
            spec_fixed_message(*self) matches Some(m) ==> r@ == m,
            self is Serialization ==> r@.len() >= 36 && r@.take(36)
                == "failed to (de)serialize vault data: "@,
            self is Io ==> r@.len() >= 11 && r@.take(11) == "I/O error: "@,
    {
        match self {
            CoreError::EmptyName => to_owned_string("entry name cannot be empty"),
            CoreError::EntryNotFound => to_owned_string("no entry found with that identifier"),
            CoreError::VaultAlreadyExists => to_owned_string("a vault already exists at this path"),
            CoreError::InvalidFormat => to_owned_string(
                "vault file is corrupted or has an unrecognized format",
            ),
            CoreError::UnsupportedVersion(v) => prefixed(
                "unsupported format version: ",
                decimal(*v as u64),
            ),
            CoreError::Unlock => to_owned_string(
                "failed to unlock vault: wrong password or corrupted file",
            ),
            CoreError::Serialization(e) => {
                let r = prefixed("failed to (de)serialize vault data: ", json_error_text(e));
                proof {
                    reveal_strlit("failed to (de)serialize vault data: ");
                    assert(r@.take(36) =~= "failed to (de)serialize vault data: "@);
                }
                r
            },
            CoreError::Io(e) => {
                let r = prefixed("I/O error: ", io_error_text(e));
                proof {
                    reveal_strlit("I/O error: ");
                    assert(r@.take(11) =~= "I/O error: "@);
                }
                r
            },
            CoreError::InvalidPasswordPolicy => to_owned_string("invalid password policy"),
            CoreError::ZeroLength => to_owned_string("password length must be greater than zero"),
            CoreError::EmptyCharset => to_owned_string(
                "password policy resulted in an empty character set",
            ),
        }
    }
}

} // verus!
