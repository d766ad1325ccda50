[package]
name = "profile-materials"
version = "0.1.0"
edition = "2021"
publish = false

[dependencies]
arc-swap = "1"
axum = "0.8"
base64 = "0.22"
futures-util = "0.3"
reqwest = { version = "0.12", default-features = false, features = ["rustls-tls", "stream"] }
rustls = { version = "0.23", default-features = false, features = ["ring", "std", "tls12"] }
serde = { version = "1", features = ["derive"] }
serde_json = "1"
tokio = { version = "1", features = ["full"] }
tracing = "0.1"
tracing-subscriber = { version = "0.3", features = ["env-filter", "json"] }
twilight-gateway = "0.16"
twilight-model = "0.16"
