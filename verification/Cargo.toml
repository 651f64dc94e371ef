[package]
name = "auth-sqlx-axum"
version = "0.1.0"
edition = "2021"
publish = false

[dependencies]
askama = "0.12"
axum = "0.7"
axum-login = "0.15"
dotenvy = "0.15"
oauth2 = "4"
serde = { version = "1", features = ["derive"] }
serde_json = "1"
sqlx = { version = "0.7", features = ["postgres", "runtime-tokio"] }
time = "0.3"
tokio = { version = "1", features = ["full"] }
tower-sessions-sqlx-store = { version = "0.12", features = ["postgres"] }
tracing-subscriber = { version = "0.3", features = ["env-filter"] }
