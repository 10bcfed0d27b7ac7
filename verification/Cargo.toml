[package]
name = "keychain_bridge"
version = "0.1.0"
edition = "2021"
publish = false

[dependencies]
keyring = "3"
serde = { version = "1", features = ["derive"] }
serde_json = "1"
