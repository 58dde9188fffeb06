[package]
name = "sentry_tunnel"
version = "0.1.0"
edition = "2021"
publish = false

[dependencies]
serde_json = "*"
url = "*"
serde = { version = "*", features = ["derive"] }
axum = "*"
reqwest = { version = "*", default-features = false }
thiserror = "*"
tracing = "*"
utoipa = "*"
utoipa-axum = "*"
