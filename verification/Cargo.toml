[package]
name = "salt_stream"
version = "0.1.0"
edition = "2021"
publish = false

[dependencies]
anyhow = "=1.0.104"
eventsource = "=0.5.0"
nannou = { version = "0.18", default-features = false }
reqwest = { version = "=0.10.10", features = ["blocking", "json"] }
serde_json = "=1.0.154"
