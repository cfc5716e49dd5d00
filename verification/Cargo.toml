[package]
name = "jisrot"
version = "0.1.0"
edition = "2021"
publish = false

[dependencies]
regex = "=1.13.1"
serde = { version = "=1.0.229", features = ["derive"] }
serde_json = "=1.0.151"
csv = "=1.4.0"
chrono = { version = "=0.4.45", features = ["serde"] }
anyhow = "=1.0.104"
indexmap = { version = "=2.14.2", features = ["serde"] }
