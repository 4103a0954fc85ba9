[package]
name = "axum_crud"
version = "0.1.0"
edition = "2021"
publish = false

[dependencies]
axum = "0.7"
bcrypt = "0.15"
chrono = "0.4"
dotenvy = "0.15"
jsonwebtoken = { version = "9", default-features = false }
serde = { version = "1", features = ["derive"] }
serde_json = "1"
tokio = { version = "1", features = ["macros", "rt-multi-thread", "net"] }
tracing-subscriber = "0.3"
