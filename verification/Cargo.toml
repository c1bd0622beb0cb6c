[package]
name = "axum_session"
version = "0.1.0"
edition = "2021"
publish = false

[dependencies]
aes-gcm = "=0.10.3"
base64 = "=0.21.7"
rand = "=0.8.8"
uuid = { version = "=1.29.0", features = ["v4"] }
cookie = { version = "=0.18.2", features = ["private", "percent-encode"] }
http = "=1.5.0"
serde = "=1.0.229"
serde_json = "=1.0.154"
