[package]
name = "chat_adapter"
version = "0.1.0"
edition = "2021"
publish = false

[dependencies]
flume = "*"
axum = "*"
futures-util = "*"
serde = { version = "*", features = ["derive"] }
anyhow = "*"
