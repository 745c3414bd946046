[package]
name = "product-service"
version = "0.1.0"
edition = "2021"
publish = false

[dependencies]
actix-web = "=4.18.1"
anyhow = "=1.0.104"
opentelemetry = { version = "0.20", features = ["rt-tokio"] }
opentelemetry-otlp = { version = "0.13", features = ["grpc-tonic"] }
opentelemetry_sdk = "0.20"
prometheus = "=0.14.0"
rand = "0.8"
reqwest = { version = "=0.13.5", default-features = false, features = ["blocking"] }
serde = { version = "=1.0.229", features = ["derive"] }
serde_json = "=1.0.154"
tokio = { version = "=1.54.1", features = ["macros", "rt-multi-thread", "time"] }
tracing = "=0.1.44"
tracing-opentelemetry = "0.21"
tracing-subscriber = { version = "=0.3.23", features = ["env-filter"] }
