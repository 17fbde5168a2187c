[package]
name = "tracks"
version = "0.1.0"
edition = "2021"
publish = false

[dependencies]
flume = { version = "0.10", default-features = false }
uuid = { version = "0.8", features = ["v4"] }
