[package]
name = "clip_pipeline"
version = "0.1.0"
edition = "2021"
publish = false

[dependencies]
actix-web = "*"
anyhow = "*"
async-stream = "*"
aws-config = "*"
aws-sdk-s3 = "*"
aws-sdk-transcribestreaming = "*"
aws-types = "*"
chrono = "*"
env_logger = "*"
log = "*"
opencv = "*"
serde = { version = "*", features = ["derive"] }
tokio = { version = "*", features = ["full"] }
tracing-subscriber = "*"
