[package]
name = "relay_core"
version = "0.1.0"
edition = "2021"
publish = false

[dependencies]
axum = { version = "*", features = ["ws"] }
futures-util = "*"
tokio = { version = "*", features = ["rt-multi-thread", "net", "sync", "macros"] }
tower-http = { version = "*", features = ["cors"] }
