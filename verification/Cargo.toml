[package]
name = "cluster_core"
version = "0.1.0"
edition = "2021"
publish = false

[dependencies]
anyhow = "1"
bytes = "1"
flexbuffers = "*"
futures = "0.3"
metrics = "*"
metrics-exporter-prometheus = { version = "*", default-features = false }
metrics-util = "*"
opentelemetry = "*"
parking_lot = "0.12"
rand = "0.8"
serde = { version = "1", features = ["derive"] }
strum = { version = "*", features = ["derive"] }
tokio = { version = "1", features = ["rt", "rt-multi-thread", "sync", "time", "macros"] }
tokio-util = "0.7"
tracing = "0.1"
