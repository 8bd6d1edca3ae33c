[package]
name = "wallet_keys"
version = "0.1.0"
edition = "2021"
publish = false

[dependencies]
bip39 = { version = "=2.2.2", features = ["rand"] }
bitcoin = "=0.30.3"
secp256k1 = { version = "=0.27.0", features = ["global-context"] }
ring = "=0.17.14"
serde = { version = "=1.0.229", features = ["derive"] }
serde_json = "=1.0.154"
reqwest = { version = "=0.12.28", default-features = false, features = ["json"] }
log = "=0.4.34"
tauri = { version = "=2.12.5", default-features = false }
tauri-plugin-log = "=2.10.1"
