//! A string that holds secret material (a password or secret notes). The
//! text lives in a `secrecy::Secret`, which wipes it from memory on drop.
use crate::text::to_owned_string;
use vstd::prelude::*;

verus! {

/// Secret text, held in a `secrecy::Secret<String>` that wipes it from memory
/// when dropped. It is never printed: the type has no `Debug`. Its contents
/// are read only through [`SecretString::as_str`].
#[verifier::external_body]
pub struct SecretString {
    inner: secrecy::Secret<String>,
}

/// The text a [`SecretString`] holds.
pub uninterp spec fn spec_secret_text(s: SecretString) -> Seq<char>;

impl View for SecretString {
    type V = Seq<char>;

    open spec fn view(&self) -> Seq<char> {
        spec_secret_text(*self)
    }
}

impl SecretString {
    /// Calls `secrecy::Secret::new`: the secret holds exactly `s`.
    #[verifier::external_body]
    pub(crate) fn new(s: String) -> (r: Self)
        ensures
            spec_secret_text(r) == s@,
    {
        SecretString { inner: secrecy::Secret::new(s) }
    }

    /// Calls `secrecy::ExposeSecret::expose_secret`: the secret text.
    #[verifier::external_body]
    pub fn as_str(&self) -> (s: &str)
        ensures
            s@ == spec_secret_text(*self),
    {
        secrecy::ExposeSecret::expose_secret(&self.inner).as_str()
    }

    /// A second secret with the same text.
    pub fn duplicate(&self) -> (r: Self)
        ensures
            r@ == self@,
    {
        SecretString::new(to_owned_string(self.as_str()))
    }
}

impl Clone for SecretString {
    fn clone(&self) -> (r: Self)
        ensures
            r@ == self@,
    {
        self.duplicate()
    }
}

impl From<String> for SecretString {
    fn from(s: String) -> (r: Self)
        ensures
            r@ == s@,
    {
        SecretString::new(s)
    }
}

/// `from`'s own `ensures` says what the secret holds; the trait's
/// structural `from_spec` is not claimed, as the holder is opaque.
impl vstd::std_specs::convert::FromSpecImpl<String> for SecretString {
    open spec fn obeys_from_spec() -> bool {
        false
    }

    open spec fn from_spec(v: String) -> Self {
        vstd::pervasive::arbitrary()
    }
}

} // verus!
