[package]
name = "sse_bridge"
version = "0.1.0"
edition = "2021"
publish = false

[dependencies]
axum = "*"
tokio = { version = "*", features = ["rt-multi-thread", "macros", "net", "time", "sync"] }
tokio-util = "*"
futures = "*"
serde_json = "*"
