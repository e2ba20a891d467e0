[package]
name = "axum_session"
version = "0.1.0"
edition = "2021"
publish = false

[dependencies]
async-trait = "0.1"
axum-core = "0.4"
cookie = { version = "0.18", features = ["private"] }
http = "1"
serde = "1"
serde_json = "1"
uuid = { version = "1", features = ["v4"] }
