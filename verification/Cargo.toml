[package]
name = "cista"
version = "0.1.0"
edition = "2021"
publish = false

[dependencies]
chacha20poly1305 = "0.10"
argon2 = "0.5"
rand = "0.8"
uuid = { version = "1", features = ["v4", "serde"] }
time = { version = "0.3", features = ["serde", "formatting"] }
dirs = "5"
serde = { version = "1", features = ["derive"] }
serde_json = "1"
secrecy = { version = "0.8", features = ["serde"] }
zeroize = "1"
thiserror = "1"
anyhow = "1"
clap = { version = "4", features = ["derive"] }
clap_complete = "4"
colored = "2"
comfy-table = "7"
rpassword = "7"
rustyline = "14"
arboard = { version = "3", default-features = false }
libc = "0.2"
tempfile = "3"
toml = "0.8"
blake2 = "0.10"
crossterm = "0.28"
ratatui = "0.29"
