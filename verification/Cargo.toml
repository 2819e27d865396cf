[package]
name = "speconn"
version = "0.1.0"
edition = "2021"
publish = false

[dependencies]
futures = "0.3"
tokio = { version = "1", features = ["rt", "rt-multi-thread", "time", "sync"] }
tokio-util = "0.7"
reqwest = { version = "0.12", default-features = false }
