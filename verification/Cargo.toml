[package]
name = "ya-rcon"
version = "0.1.0"
edition = "2021"
publish = false

[dependencies]
futures = { version = "0.3", default-features = false, features = ["std"] }
tokio = { version = "1", default-features = false, features = ["io-util"] }
