[package]
name = "nymlib"
version = "0.1.0"
edition = "2021"
publish = false

[dependencies]
aes-gcm-siv = "0.11"
aes = "0.8"
ctr = "0.9"
hmac = "0.12"
sha2 = "0.10"
bs58 = "0.5"
etherparse = "0.13"
boringtun = { version = "0.6", default-features = false }
serde = { version = "1", features = ["derive"] }
serde_json = "1"
thiserror = "1"
colored = "2"
log = "0.4"
tokio = { version = "1", features = ["full"] }
tokio-tun = "0.11"
axum = "0.7"
tracing = "0.1"
