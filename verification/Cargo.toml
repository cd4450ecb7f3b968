[package]
name = "enchat_core"
version = "0.1.0"
edition = "2021"
publish = false

[dependencies]
aead = { version = "=0.5.2", features = ["stream"] }
aes-gcm-siv = "=0.11.1"
bincode = "=1.3.3"
bs58 = "=0.5.1"
chacha20poly1305 = "=0.10.1"
curve25519-dalek = { version = "=4.1.3", features = ["digest"] }
dirs = "=5.0.1"
hkdf = "=0.12.4"
keyring = { version = "=3.6.3", default-features = false }
rand = "=0.8.8"
rusqlite = { version = "=0.31.0", features = ["bundled"] }
serde = { version = "=1.0.229", features = ["derive"] }
sha2 = "=0.10.9"
subtle = "=2.6.1"
x25519-dalek = { version = "=2.0.1", features = ["static_secrets"] }
