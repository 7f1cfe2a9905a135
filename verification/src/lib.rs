//! Core library for Cista: vault model, file format, crypto glue, password
//! generation and the pure decision logic of the command line and terminal UI.
mod error;

pub mod cipher;
pub mod cli;
pub mod config;
pub mod format;
pub mod handlers;
pub mod kdf;
pub mod meta;
pub mod model;
pub mod password_gen;
pub mod paths;
pub mod prompts;
pub mod repl;
pub mod sealing;
pub mod text;
pub mod tui;
pub mod ui;
pub mod vault_files;

pub use error::{CoreError, CoreResult};
pub use model::{Entry, SecretString, Vault};
