[package]
name = "sniff_core"
version = "0.1.0"
edition = "2021"
publish = false

[dependencies]
anyhow = "*"
ndarray = "*"
serde = { version = "*", features = ["derive"] }
serde_json = "*"
