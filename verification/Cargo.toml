[package]
name = "mempool_core"
version = "0.1.0"
edition = "2021"
publish = false

[dependencies]
hex = "0.4"
futures = "0.3"
tokio = { version = "1", features = ["rt", "sync"] }
serde = { version = "1", features = ["derive"] }
thiserror = "1"
