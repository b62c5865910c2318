[package]
name = "lib_auth"
version = "0.1.0"
edition = "2021"
publish = false

[dependencies]
argon2 = "=0.5.3"
hmac = "=0.12.1"
sha2 = "=0.10.9"
subtle = "=2.6.1"
regex-syntax = "=0.8.11"
uuid = { version = "=1.29.0", features = ["v4", "v7", "serde"] }
tokio = { version = "=1.54.1", features = ["rt-multi-thread", "macros"] }
serde = { version = "=1.0.229", features = ["derive"] }
serde_json = "=1.0.154"
serde_with = "=3.24.0"
thiserror = "=1.0.69"
rand = "=0.8.8"
sqlx = { version = "0.8", default-features = false, features = ["postgres"] }
