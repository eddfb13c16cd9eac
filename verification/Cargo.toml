[package]
name = "rs_qq"
version = "0.1.0"
edition = "2021"
publish = false

[dependencies]
bytes = "1"
chrono = { version = "0.4", default-features = false, features = ["clock"] }
rand = "0.8"
tokio = { version = "1", features = ["rt", "sync", "time"] }
tracing = "0.1"
