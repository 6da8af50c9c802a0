[package]
name = "qdrant"
version = "0.1.0"
edition = "2021"
publish = false

[dependencies]
chrono = { version = "0.4", features = ["serde"] }
uuid = { version = "1", features = ["v4"] }
parking_lot = "0.12"
serde = { version = "1", features = ["derive"] }
serde_json = "1"
actix-web = "4"
futures-util = "0.3"
tracing = "0.1"
anyhow = "1"
schemars = { version = "0.8", features = ["chrono"] }
validator = { version = "*", features = ["derive"] }
