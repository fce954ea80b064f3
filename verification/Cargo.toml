[package]
name = "rapture_core"
version = "0.1.0"
edition = "2021"
publish = false

[dependencies]
anyhow = "1"
async-trait = "0.1"
base64 = "=0.22.1"
chacha20poly1305 = "=0.10.1"
clap = { version = "4", features = ["derive"] }
flume = "0.11"
nostr-sdk = { version = "=0.44.1", features = ["nip44", "nip59"] }
rand = "=0.8.8"
reqwest = { version = "=0.12.28", default-features = false, features = ["json", "rustls-tls"] }
serde = { version = "1", features = ["derive"] }
serde_json = "=1.0.154"
sha2 = "=0.10.9"
thiserror = "2"
tokio = { version = "1", features = ["full"] }
toml = "0.8"
tracing = "0.1"
uniffi = { version = "=0.29.5", features = ["cli"] }
uuid = { version = "=1.29.0", features = ["v4"] }
