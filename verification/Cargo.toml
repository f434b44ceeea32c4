[package]
name = "rustis"
version = "0.1.0"
edition = "2021"
publish = false

[dependencies]
axum = "0.6"
clokwerk = "0.4"
dashmap = "5"
serde_json = "1"
state = "0.5"
tokio = { version = "1", features = ["full"] }
tracing = "0.1"
