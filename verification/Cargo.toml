[package]
name = "preview_sync"
version = "0.1.0"
edition = "2021"
publish = false

[dependencies]
indexmap = "*"
tokio = { version = "*", features = ["sync", "net", "rt", "macros"] }
tokio-tungstenite = "*"
futures = "*"
serde = { version = "*", features = ["derive"] }
serde_json = "*"
log = "*"
