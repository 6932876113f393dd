[package]
name = "arducap"
version = "0.1.0"
edition = "2021"
publish = false

[dependencies]
serde_json = "*"
anyhow = "*"
mcap = { version = "*", default-features = false }
