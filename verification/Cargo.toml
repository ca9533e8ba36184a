[package]
name = "grove"
version = "0.1.0"
edition = "2021"
publish = false

[dependencies]
anyhow = "1"
ssh2 = "0.9"
uuid = { version = "1", features = ["v4"] }
