[package]
name = "collab"
version = "0.1.0"
edition = "2021"
publish = false

[dependencies]
axum = { version = "=0.6.20", features = ["headers", "json"] }
axum-extra = { version = "=0.4.2", features = ["erased-json"] }
chrono = "=0.4.45"
reqwest = { version = "=0.11.27", default-features = false, features = ["json"] }
serde = { version = "=1.0.229", features = ["derive"] }
serde_json = "=1.0.154"
tower = "=0.4.13"
urlencoding = "=2.1.3"
