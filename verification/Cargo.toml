[package]
name = "accessibility-audit-backend"
version = "0.1.0"
edition = "2021"
publish = false

[dependencies]
axum = "=0.7.9"
chrono = { version = "=0.4.45", features = ["serde"] }
headless_chrome = "=1.0.22"
regex = "=1.13.1"
reqwest = { version = "=0.12.28", default-features = false }
serde = { version = "=1.0.229", features = ["derive"] }
serde_json = "=1.0.154"
tokio = { version = "=1.54.1", features = ["macros", "rt-multi-thread"] }
tracing = "=0.1.44"
uuid = { version = "=1.29.0", features = ["v4", "serde"] }
validator = { version = "=0.18.1", features = ["derive"] }
