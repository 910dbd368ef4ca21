[package]
name = "auth_core"
version = "0.1.0"
edition = "2021"
publish = false

[dependencies]
argon2 = "0.5"
rand = "0.8"
validator = "0.16"
serde = { version = "1", features = ["derive"] }
serde_json = "1"
thiserror = "1"
async-trait = "0.1"
axum = "0.7"
axum-login = "0.13"
axum-messages = "0.3"
tower-sessions = "0.10"
tower-http = { version = "0.5", features = ["trace"] }
sea-orm = { version = "0.12", features = ["sqlx-sqlite", "runtime-tokio-rustls", "macros"] }
tokio = { version = "1", features = ["full"] }
handlebars = { version = "5", features = ["dir_source"] }
tracing = "0.1"
tracing-subscriber = "0.3"
dotenvy = "0.15"
