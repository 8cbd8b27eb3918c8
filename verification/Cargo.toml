[package]
name = "review_auth"
version = "0.1.0"
edition = "2021"
publish = false

[dependencies]
anyhow = "=1.0.104"
axum = "0.7"
chrono = "=0.4.45"
config = "0.14"
dioxus = { version = "0.5", features = ["fullstack", "router", "axum"] }
dioxus-logger = "0.5"
jsonwebtoken = "=9.3.1"
serde = { version = "=1.0.229", features = ["derive"] }
serde_json = { version = "=1.0.154", features = ["preserve_order"] }
tokio = { version = "=1.54.1", features = ["sync", "rt", "rt-multi-thread", "net", "macros"] }
