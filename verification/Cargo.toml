[package]
name = "parallax"
version = "0.1.0"
edition = "2021"
publish = false

[dependencies]
sha2 = "0.10"
hex = "0.4"
base64 = "0.21"
ed25519-dalek = "2"
chrono = { version = "0.4", features = ["serde"] }
uuid = { version = "1", features = ["v4"] }
serde = { version = "1", features = ["derive"] }
serde_json = "1"
csv = "1"
dirs = "5"
machine-uid = "0.5"
sysinfo = "0.30"
reqwest = { version = "0.11", default-features = false, features = ["json", "rustls-tls"] }
tokio = { version = "1", features = ["time", "fs", "rt", "sync"] }
anyhow = "1"
tracing = "0.1"
tracing-subscriber = { version = "0.3", features = ["env-filter"] }
futures = "0.3"
keyring = "3"
aes-gcm = "0.10"
rand = "0.8"
rusqlite = { version = "0.31", features = ["bundled"] }
printpdf = "0.7"
