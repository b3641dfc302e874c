[package]
name = "relay_core"
version = "0.1.0"
edition = "2021"
publish = false

[dependencies]
anyhow = "=1.0.104"
futures = "=0.3.34"
jsonwebtoken = { version = "=11.1.0", default-features = false, features = ["rust_crypto"] }
reqwest = { version = "=0.12.28", default-features = false, features = ["rustls-tls", "json"] }
rustls = "=0.23.45"
serde = { version = "=1.0.229", features = ["derive"] }
serde_json = "=1.0.151"
tokio = { version = "=1.53.2", features = ["full"] }
tokio_kcp = "=0.9.8"
webpki-roots = "=1.0.9"
