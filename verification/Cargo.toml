[package]
name = "openai_trtllm"
version = "0.1.0"
edition = "2021"
publish = false

[dependencies]
anyhow = "1"
axum = "0.7"
axum-tracing-opentelemetry = "0.18"
opentelemetry = "0.22"
prost = "0.12"
serde = { version = "1", features = ["derive"] }
serde_json = "1"
tokio = { version = "1", features = ["full"] }
tonic = "0.11"
tracing = "0.1"
