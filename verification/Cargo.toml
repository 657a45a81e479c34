[package]
name = "gemini_proxy"
version = "0.1.0"
edition = "2021"
publish = false

[dependencies]
serde_json = "1"
serde = { version = "1", features = ["derive"] }
axum = "0.7"
tokio = { version = "1", features = ["rt-multi-thread", "macros", "process", "io-util", "sync", "signal", "net"] }
tower-http = { version = "0.5", features = ["cors"] }
futures-util = "0.3"
tracing = "0.1"
tracing-subscriber = "0.3"
