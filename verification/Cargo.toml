[package]
name = "hyper_timeout"
version = "0.1.0"
edition = "2021"
publish = false

[dependencies]
hyper = { version = "0.14", features = ["client", "http1", "tcp"] }
pin-project = "1"
tokio = { version = "1", features = ["time"] }
tokio-io-timeout = "1"
