[package]
name = "ips_analyzer"
version = "0.1.0"
edition = "2021"
publish = false

[dependencies]
r2pipe = "*"
regex = "1"
serde = { version = "1", features = ["derive"] }
serde_json = "1"
