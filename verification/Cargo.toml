[package]
name = "vsm_rs"
version = "0.1.0"
edition = "2021"
publish = false

[dependencies]
chrono = "*"
serde = { version = "1", features = ["derive"] }
serde_json = "1"
thiserror = "*"
uuid = { version = "1", features = ["v4"] }
tokio = { version = "1", features = ["rt-multi-thread", "macros", "sync", "time"] }
ractor = "*"
ractor-supervisor = "*"
tracing = "*"
tracing-subscriber = { version = "*", features = ["env-filter"] }
