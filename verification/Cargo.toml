[package]
name = "cacp"
version = "0.1.0"
edition = "2021"
publish = false

[dependencies]
serde = { version = "1", features = ["derive"] }
serde_json = "1"
tokio = { version = "1", features = ["io-util", "io-std", "process", "sync", "rt", "rt-multi-thread", "macros"] }
anyhow = "1"
