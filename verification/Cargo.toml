[package]
name = "wallet_live"
version = "0.1.0"
edition = "2021"
publish = false

[dependencies]
askama = "0.12"
axum = "0.8"
axum-extra = { version = "0.10", features = ["cookie"] }
chrono = "0.4"
color-eyre = "0.6"
dotenvy = "0.15"
jwt-simple = { version = "0.12", default-features = false, features = ["pure-rust"] }
lazy_static = "1"
password-auth = "1"
plotly = "0.12"
rand = "0.8"
serde = { version = "1", features = ["derive"] }
serde_json = "1"
sqlx = { version = "0.8", features = ["runtime-tokio", "postgres", "time"] }
thiserror = "1"
time = { version = "0.3", features = ["serde-well-known"] }
tokio = { version = "1", features = ["full"] }
tracing = "0.1"
tracing-subscriber = "0.3"
