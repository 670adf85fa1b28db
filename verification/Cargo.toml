[package]
name = "chat_relay"
version = "0.1.0"
edition = "2021"
publish = false

[dependencies]
dashmap = "*"
tokio = { version = "*", features = ["full"] }
rmp-serde = "*"
uuid = { version = "*", features = ["v4"] }
serde = { version = "*", features = ["derive"] }
axum = { version = "*", features = ["ws"] }
futures-util = "*"
names = "*"
tracing = "*"
tracing-subscriber = "*"
