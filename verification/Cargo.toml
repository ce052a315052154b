[package]
name = "palingenesis"
version = "0.1.0"
edition = "2021"
publish = false

[dependencies]
regex = "=1.13.1"
hex = "=0.4.3"
uuid = { version = "=1.29.0", features = ["v4"] }
chrono = "=0.4.45"
hmac = "=0.12.1"
sha2 = "=0.10.9"
ed25519-dalek = "=2.2.0"
serde = { version = "=1.0.229", features = ["derive"] }
serde_json = "=1.0.154"
serde_yaml = "=0.9.34"
serde_urlencoded = "=0.7.1"
toml = "=0.8.23"
tokio = { version = "=1.54.1", features = ["full"] }
tokio-util = "=0.7.20"
tokio-stream = { version = "=0.1.19", features = ["sync"] }
anyhow = "=1.0.104"
thiserror = "=2.0.21"
tracing = "=0.1.44"
dirs = "=7.0.0"
libc = "=0.2.191"
nix = { version = "=0.31.3", features = ["signal", "user"] }
notify-debouncer-full = "=0.7.0"
axum = "=0.8.9"
reqwest = { version = "=0.12.28", default-features = false, features = ["json", "rustls-tls"] }
async-trait = "=0.1.92"
