[package]
name = "internal_events"
version = "0.1.0"
edition = "2021"
publish = false

[dependencies]
metrics = "0.21"
serde_json = "1"

[dev-dependencies]
metrics-util = "0.15"
