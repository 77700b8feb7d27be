[package]
name = "hybrid_cache"
version = "0.1.0"
edition = "2021"
publish = false

[dependencies]
sha2 = "0.10"
redis = { version = "0.25", features = ["tokio-comp"] }
tokio = { version = "1", features = ["sync"] }
serde = { version = "1", features = ["derive"] }
serde_json = "1"
anyhow = "1"
tracing = "0.1"
