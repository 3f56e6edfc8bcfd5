[package]
name = "meowsn"
version = "0.1.0"
edition = "2021"
publish = false

[dependencies]
msnp11-sdk = "*"
regex = "1"
semver = "1"
serde = { version = "1", features = ["derive"] }
toml = "*"
tokio = { version = "1", features = ["full"] }
tokio-util = "*"
dirs = "*"
anyhow = "1"
r2d2 = "*"
r2d2_sqlite = { version = "*", features = ["bundled"] }
reqwest = { version = "*", features = ["json"] }
notify-rust = "*"
keyring = "*"
