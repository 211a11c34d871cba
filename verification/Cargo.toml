[package]
name = "secure_share"
version = "0.1.0"
edition = "2021"
publish = false

[dependencies]
aes = "=0.8.4"
argon2 = "=0.5.3"
axum = { version = "=0.8.9", features = ["multipart"] }
axum-extra = { version = "=0.10.3", features = ["cookie"] }
base64 = "=0.22.1"
cbc = { version = "=0.1.2", features = ["alloc"] }
chrono = { version = "=0.4.45", features = ["serde"] }
jsonwebtoken = { version = "10", default-features = false, features = ["rust_crypto"] }
rand = "=0.8.8"
rsa = "=0.9.10"
serde = { version = "=1.0.229", features = ["derive"] }
serde_json = "=1.0.154"
sqlx = { version = "=0.8.6", default-features = false, features = ["runtime-tokio", "postgres", "chrono", "uuid", "derive"] }
time = "=0.3.55"
tokio = { version = "=1.54.1", features = ["rt-multi-thread", "net", "time"] }
tower-http = { version = "=0.6.11", features = ["trace"] }
uuid = { version = "=1.29.0", features = ["v4", "serde"] }
validator = { version = "=0.20.0", features = ["derive"] }
