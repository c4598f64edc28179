[package]
name = "ble_session"
version = "0.1.0"
edition = "2021"
publish = false

[dependencies]
btleplug = "0.11"
serde = { version = "1", features = ["derive"] }
tokio = { version = "1", features = ["time"] }
uuid = "1"
