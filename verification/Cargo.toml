[package]
name = "twilight_core"
version = "0.1.0"
edition = "2021"
publish = false

[dependencies]
dashmap = "6"
futures-util = "0.3"
hyper = { version = "1", default-features = false }
serde = { version = "1", features = ["derive"] }
serde-mappable-seq = "0.1"
tokio = { version = "1", features = ["rt", "sync", "time"] }
tracing = "0.1"
