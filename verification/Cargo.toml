[package]
name = "http_rater"
version = "0.1.0"
edition = "2021"
publish = false

[dependencies]
anyhow = "*"
aya = "*"
aya-log = "*"
clap = { version = "*", features = ["derive"] }
libc = "*"
opentelemetry = "*"
opentelemetry-otlp = { version = "*", features = ["grpc-tonic", "metrics"] }
opentelemetry_sdk = { version = "*", features = ["metrics", "rt-tokio"] }
tokio = { version = "*", features = ["macros", "rt-multi-thread", "signal", "net"] }
tracing = "*"
tracing-subscriber = "*"
