[package]
name = "auth-service"
version = "0.1.0"
edition = "2021"
publish = false

[dependencies]
argon2 = { version = "=0.5.3", features = ["std"] }
axum = "=0.7.9"
axum-extra = { version = "=0.9.6", features = ["cookie"] }
chrono = "=0.4.45"
color-eyre = "=0.6.5"
jsonwebtoken = "=9.3.1"
rand = "=0.8.8"
redis = "=0.25.5"
reqwest = { version = "=0.12.28", default-features = false, features = ["json"] }
secrecy = { version = "=0.8.0", features = ["serde"] }
serde = { version = "=1.0.229", features = ["derive"] }
serde_json = "=1.0.154"
sqlx = { version = "=0.8.6", default-features = false, features = ["runtime-tokio", "postgres"] }
tokio = { version = "=1.54.1", features = ["full"] }
tower-http = { version = "=0.5.2", features = ["fs", "cors", "trace"] }
tracing = "=0.1.44"
tracing-subscriber = { version = "=0.3.23", features = ["registry", "env-filter", "fmt"] }
uuid = { version = "=1.29.0", features = ["v4"] }
validator = "=0.18.1"
