[package]
name = "lambda_events"
version = "0.1.0"
edition = "2021"
publish = false

[dependencies]
serde_json = { version = "=1.0.151", features = ["preserve_order"] }
chrono = "=0.4.45"
serde = { version = "=1.0.229", features = ["derive"] }
