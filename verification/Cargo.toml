[package]
name = "identicon_server"
version = "0.1.0"
edition = "2021"
publish = false

[dependencies]
identicon-rs = "*"
axum = "0.6"
tokio = { version = "1", features = ["full"] }
tower = { version = "0.4", features = ["full"] }
tower-http = { version = "0.4", features = ["trace"] }
rayon = "1"
serde = { version = "1", features = ["derive"] }
serde_json = "1"
tracing = "0.1"
tracing-subscriber = "0.3"
anyhow = "1"
