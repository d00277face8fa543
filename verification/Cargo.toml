[package]
name = "plexus_core"
version = "0.1.0"
edition = "2021"
publish = false

[dependencies]
serde = { version = "1", features = ["derive"] }
serde_json = "1"
tokio = { version = "1", features = ["sync", "time", "rt", "rt-multi-thread", "macros"] }
tokio-stream = "0.1"
futures = "0.3"
async-trait = "0.1"
async-stream = "0.3"
thiserror = "*"
uuid = { version = "1", features = ["v4", "v5"] }
chrono = "0.4"
tracing = "0.1"
schemars = "*"
bitflags = "2"
