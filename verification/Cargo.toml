[package]
name = "atx"
version = "0.1.0"
edition = "2021"
publish = false

[dependencies]
serde = { version = "1", features = ["derive"] }
tokio = { version = "1", features = ["process", "sync", "time"] }
tracing = "0.1"
typeshare = "1"
