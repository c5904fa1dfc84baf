[package]
name = "rocketmq_client"
version = "0.1.0"
edition = "2021"
publish = false

[dependencies]
rand = "0.8"
tokio = { version = "1", features = ["rt", "sync"] }
tokio-util = "0.7"
tracing = "0.1"
