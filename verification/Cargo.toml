[package]
name = "informer"
version = "0.1.0"
edition = "2021"
publish = false

[dependencies]
futures = "0.3"
serde = "1"
tokio = { version = "0.2", features = ["time"] }
