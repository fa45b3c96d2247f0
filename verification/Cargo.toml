[package]
name = "hyper"
version = "0.1.0"
edition = "2021"
publish = false

[dependencies]
futures = "0.1"
serde = { version = "1", features = ["derive"] }
tokio = "0.1"
