[package]
name = "wolf_system"
version = "0.1.0"
edition = "2021"
publish = false

[dependencies]
anyhow = "1"
futures = "0.3"
parking_lot = "0.12"
rustls-pemfile = "1"
tokio = { version = "1", features = ["full"] }
tokio-rustls = "0.23"
tokio-tungstenite = "0.17"
