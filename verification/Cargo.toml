[package]
name = "vantis"
version = "0.1.0"
edition = "2021"
publish = false

[dependencies]
sha2 = "=0.10.9"
hex = "=0.4.3"
base64 = "=0.21.7"
ed25519-dalek = "=2.2.0"
semver = "=1.0.28"
serde = { version = "=1.0.229", features = ["derive"] }
serde_json = "=1.0.154"
uuid = { version = "=1.29.0", features = ["v4"] }
getrandom = "=0.4.3"
chrono = "=0.4.45"
urlencoding = "=2.1.3"
tokio = { version = "=1.54.1", features = ["rt-multi-thread", "macros", "sync", "time"] }
reqwest = { version = "=0.12.28", default-features = false, features = ["json", "rustls-tls"] }
async-trait = "=0.1.92"
dashmap = "=5.5.3"
parking_lot = "=0.12.5"
dirs = "=5.0.1"
toml = "=0.8.23"
libloading = "=0.8.9"
sentry = { version = "*", default-features = false, features = ["reqwest", "rustls"] }
anyhow = "1"
