[package]
name = "service_handler"
version = "0.1.0"
edition = "2021"
publish = false

[dependencies]
tokio = { version = "1", features = ["sync", "rt", "rt-multi-thread", "time"], default-features = false }
tokio-util = "0.7"
tracing = "0.1"
