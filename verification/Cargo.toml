[package]
name = "face_recognition"
version = "0.1.0"
edition = "2021"
publish = false

[dependencies]
anyhow = "=1.0.104"
axum = { version = "0.8", features = ["multipart"] }
chrono = "=0.4.45"
dotenv = "=0.15.0"
opencv = "=0.101.1"
serde = { version = "=1.0.229", features = ["derive"] }
sqlx = { version = "=0.7.4", features = ["runtime-tokio", "sqlite"] }
tokio = { version = "=1.54.1", features = ["full"] }
tower-http = { version = "0.6", features = ["cors"] }
utoipa = { version = "=5.5.0", features = ["axum_extras"] }
utoipa-swagger-ui = { version = "9", features = ["axum", "vendored"] }
uuid = { version = "=1.29.0", features = ["v4"] }
