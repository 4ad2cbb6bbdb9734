[package]
name = "signify"
version = "0.1.0"
edition = "2021"
publish = false

[dependencies]
ed25519-dalek = { version = "2", features = ["rand_core"] }
rand = "0.8"
base64 = "0.22"
toml = "0.8"
serde = { version = "1", features = ["derive"] }
