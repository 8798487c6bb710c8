[package]
name = "r2_gateway"
version = "0.1.0"
edition = "2021"
publish = false

[dependencies]
anyhow = "1"
aws-sdk-s3 = { version = "1", default-features = false, features = ["rt-tokio"] }
axum = { version = "0.7", features = ["multipart"] }
bcrypt = "0.15"
clap = { version = "4", features = ["derive"] }
dotenvy = "0.15"
hex = "0.4"
lazy_static = "1"
rand = "0.8"
serde = { version = "1", features = ["derive"] }
serde_json = "1"
tokio = { version = "1", features = ["full"] }
tower-http = { version = "0.5", features = ["fs"] }
tracing = "0.1"
tracing-subscriber = "0.3"
uuid = { version = "1", features = ["v4"] }
