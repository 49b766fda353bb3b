[package]
name = "bastion"
version = "0.1.0"
edition = "2021"
publish = false

[dependencies]
anyhow = "1"
bytes = "1"
clap = { version = "4", features = ["derive"] }
comfy-table = "7"
console = "0.15"
csv = "1"
governor = "0.6"
hdrhistogram = { version = "7", default-features = false }
http-body-util = "0.1"
humantime = "2"
hyper = { version = "1", features = ["client", "http1", "http2"] }
hyper-rustls = { version = "0.27", default-features = false, features = ["http1", "http2", "native-tokio", "ring", "tls12", "logging"] }
hyper-util = { version = "0.1", features = ["client-legacy", "tokio", "http1", "http2"] }
reqwest = { version = "0.12", default-features = false }
serde = { version = "1", features = ["derive"] }
serde_json = "1"
thiserror = "1"
tokio = { version = "1", features = ["full"] }
tower-service = "0.3"
tracing = "0.1"
tracing-subscriber = { version = "0.3", features = ["env-filter"] }
