[package]
name = "rustframe"
version = "0.1.0"
edition = "2021"
publish = false

[dependencies]
dirs = "6"
serde = { version = "1", features = ["derive"] }
serde_json = "1"
log = "0.4"
tracing = "0.1"
anyhow = "1"
lazy_static = "1"
reqwest = { version = "0.12", default-features = false }
