[package]
name = "metrics_endpoint"
version = "0.1.0"
edition = "2021"
publish = false

[dependencies]
anyhow = "*"
hyper = { version = "=0.14.32", features = ["server", "http1", "tcp"] }
opentelemetry-prometheus = "=0.33.0"
opentelemetry_sdk = "=0.33.0"
prometheus = "=0.14.0"
tokio = { version = "1", features = ["rt-multi-thread", "macros", "net"] }
tracing = "*"
