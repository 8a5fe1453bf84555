[package]
name = "kao-proxy"
version = "0.1.0"
edition = "2021"
publish = false

[dependencies]
anyhow = "=1.0.104"
axum = { version = "=0.8.9", default-features = false, features = ["http1", "tokio"] }
reqwest = { version = "=0.12.28", default-features = false, features = ["rustls-tls"] }
serde_json = { version = "=1.0.154", features = ["raw_value"] }
tokio = { version = "=1.54.1", features = ["macros", "net", "rt-multi-thread", "signal"] }
tracing = "=0.1.44"
tracing-subscriber = "=0.3.23"
