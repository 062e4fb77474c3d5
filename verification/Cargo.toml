[package]
name = "cdpay"
version = "0.1.0"
edition = "2021"
publish = false

[dependencies]
urlencoding = "1"
serde = "1"
serde_derive = "1"
serde_json = "1"
futures = "0.3"
hyper = { version = "0.14", features = ["client", "http1", "tcp"] }
hyper-tls = "0.5"
native-tls = "0.2"
tokio = { version = "1", features = ["rt", "time"] }
tokio-retry = "0.3"
