//! Editable user settings.
use vstd::prelude::*;

verus! {

/// User settings, read from `~/.config/cista/config.toml`.
#[derive(Debug, Clone)]
pub struct Config {
    /// Inactivity timeout before a session auto-locks, in seconds (0: never).
    pub auto_lock_seconds: u64,
    /// Default password length for `cista generate` and `cista add --generate`.
    pub default_generate_length: usize,
}

impl Default for Config {
    /// Five minutes of inactivity, twenty-character passwords.
    fn default() -> (c: Self)
        ensures
            c.auto_lock_seconds == 300,
            c.default_generate_length == 20,
    {
        Config { auto_lock_seconds: 300, default_generate_length: 20 }
    }
}

} // verus!
