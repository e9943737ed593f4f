[package]
name = "paragon"
version = "0.1.0"
edition = "2021"
publish = false

[dependencies]
chrono = { version = "0.4", features = ["serde"] }
dashmap = "*"
deadpool-postgres = "*"
futures = "*"
futures-util = "*"
once_cell = "*"
serde = { version = "1", features = ["derive"] }
serde_json = "1"
tokio = { version = "1", features = ["full"] }
tokio-postgres = { version = "*", features = ["with-chrono-0_4"] }
tokio-tungstenite = "*"
