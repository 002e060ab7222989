[package]
name = "service-sdk"
version = "0.1.0"
edition = "2021"
publish = false

[dependencies]
async-trait = "=0.1.92"
metrics = "=0.24.6"
metrics-prometheus = "=0.11.2"
prometheus = "=0.14.0"
rustls = { version = "=0.23.46", default-features = false, features = ["ring", "std"] }
tokio = { version = "=1.54.1", features = ["rt", "net", "time"] }
tokio-stream = { version = "=0.1.19", features = ["net"] }
tower = "=0.5.3"
proc-macro2 = "=1.0.107"
quote = "=1.0.47"
syn = { version = "=2.0.119", features = ["full"] }
