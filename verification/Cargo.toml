[package]
name = "accounting_assistant"
version = "0.1.0"
edition = "2021"
publish = false

[dependencies]
serde = { version = "=1.0.229", features = ["derive"] }
serde_json = "=1.0.154"
uuid = { version = "=1.29.0", features = ["v4"] }
thiserror = "=1.0.69"
chrono = { version = "=0.4.45", features = ["serde"] }
rust_decimal = "=1.43.0"
strum = { version = "=0.26.3", features = ["derive"] }
dirs = "=5.0.1"
bytes = "=1.12.1"
futures = "=0.3.34"
async-stream = "=0.3.6"
tokio = { version = "=1.54.1", features = ["full"] }
reqwest = { version = "=0.12.28", default-features = false, features = ["json", "stream", "rustls-tls"] }
sea-orm = { version = "=2.0.4", features = ["sqlx-sqlite", "runtime-tokio-rustls", "schema-sync", "entity-registry"] }
