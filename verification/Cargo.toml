[package]
name = "api-gateway"
version = "0.1.0"
edition = "2021"
publish = false

[dependencies]
anyhow = "1"
axum = "*"
chrono = { version = "*", default-features = false, features = ["clock", "std"] }
dotenvy = "*"
jsonwebtoken = "9"
metrics = "*"
metrics-exporter-prometheus = { version = "*", default-features = false }
once_cell = "1"
opentelemetry = "*"
opentelemetry-otlp = { version = "*", features = ["grpc-tonic"] }
opentelemetry_sdk = { version = "*", features = ["rt-tokio"] }
opentelemetry-semantic-conventions = "*"
regex-lite = "*"
reqwest = { version = "*", default-features = false }
serde = { version = "1", features = ["derive"] }
thiserror = "*"
tokio = { version = "1", features = ["macros", "net", "rt-multi-thread", "signal", "time"] }
tower-http = { version = "*", features = ["compression-gzip", "cors", "timeout", "trace"] }
tracing = "0.1"
tracing-opentelemetry = "*"
tracing-subscriber = { version = "*", features = ["env-filter", "json"] }
uuid = { version = "1", features = ["v4"] }
