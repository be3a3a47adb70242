[package]
name = "camera-recorder"
version = "0.1.0"
edition = "2021"
publish = false

[dependencies]
anyhow = "1"
aws-credential-types = { version = "1", features = ["hardcoded-credentials"] }
aws-sdk-s3 = "1"
axum = "0.7"
chrono = "0.4"
futures = "0.3"
prometheus = "0.13"
regex = "1"
serde = { version = "1", features = ["derive"] }
signal-hook = "0.3"
signal-hook-tokio = { version = "0.3", features = ["futures-v0_3"] }
tokio = { version = "1", features = ["full"] }
toml = "0.8"
tracing = "0.1"
tracing-subscriber = { version = "0.3", features = ["env-filter", "json"] }
