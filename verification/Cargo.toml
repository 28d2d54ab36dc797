[package]
name = "faultline"
version = "0.1.0"
edition = "2021"
publish = false

[dependencies]
anyhow = "1"
either = "1"
serde = { version = "1", features = ["derive"] }
schemars = "*"
thiserror = "2"
tracing = "0.1"

[dev-dependencies]
serde_json = "1"
