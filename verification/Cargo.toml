[package]
name = "app_repository"
version = "0.1.0"
edition = "2021"
publish = false

[dependencies]
axum = { version = "0.6", features = ["headers", "multipart"] }
axum-server = { version = "0.5", features = ["tls-rustls"] }
base64 = "0.21"
bson = "2"
chrono = "0.4"
data-encoding = "2"
dotenv = "0.15"
image = { version = "0.24", default-features = false, features = ["png", "jpeg"] }
jsonwebtoken = "9"
qrcode-generator = "4"
ring = "0.17"
serde = { version = "1", features = ["derive"] }
serde_json = "1"
thiserror = "1"
tokio = { version = "1", features = ["full"] }
tokio-util = { version = "0.7", features = ["io"] }
tower-http = { version = "0.4", features = ["cors", "set-header", "timeout", "trace"] }
tracing = "0.1"
tracing-subscriber = { version = "0.3", features = ["env-filter"] }
utoipa = { version = "3", features = ["axum_extras"] }
utoipa-swagger-ui = { version = "3", features = ["axum"] }
uuid = { version = "1", features = ["v4"] }
