[package]
name = "echo_server"
version = "0.1.0"
edition = "2021"
publish = false

[dependencies]
base64 = "0.22"
hex = "0.4"
ed25519-dalek = "2"
data-encoding = "2"
serde = { version = "1", features = ["derive"] }
serde_json = "1"
axum = { version = "0.7", features = ["multipart"] }
tokio = { version = "1", features = ["full"] }
sqlx = { version = "0.7", features = ["runtime-tokio", "postgres", "chrono"] }
async-trait = "0.1"
tracing = "0.1"
tracing-subscriber = { version = "0.3", features = ["env-filter"] }
envy = "0.4"
dotenv = "0.15"
chrono = "0.4"
uuid = { version = "1", features = ["v4"] }
moka = { version = "0.12", features = ["future"] }
jsonwebtoken = "9"
a2 = "*"
fcm = "*"
tower-http = { version = "0.5", features = ["request-id", "cors", "trace", "catch-panic"] }
thiserror = "1"
