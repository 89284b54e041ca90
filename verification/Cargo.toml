[package]
name = "txlat"
version = "0.1.0"
edition = "2021"
publish = false

[dependencies]
hex = "0.4"
serde_json = "1"
anyhow = "1"
chrono = "0.4"
dotenv = "0.15"
ethers = { version = "2", default-features = false }
futures-util = "0.3"
tokio = { version = "1", features = ["macros", "rt-multi-thread", "time"] }
tokio-tungstenite = "0.20"
