[package]
name = "chat_room"
version = "0.1.0"
edition = "2021"
publish = false

[dependencies]
ammonia = "3"
askama = "0.12"
axum = { version = "0.6", features = ["ws"] }
ciborium = "0.2"
serde = { version = "1", features = ["derive"] }
tokio = { version = "1", features = ["full"] }
tower-http = { version = "0.3", features = ["fs"] }
tracing = "0.1"
tracing-subscriber = "0.3"
