[package]
name = "kornetti"
version = "0.1.0"
edition = "2021"
publish = false

[dependencies]
uuid = { version = "=1.29.0", features = ["v4"] }
chrono = "=0.4.45"
base64 = "=0.22.1"
rand = "=0.8.8"
serde = { version = "=1.0.229", features = ["derive"] }
serde_json = "=1.0.154"
serde_yaml = "=0.9.34"
tokio = { version = "=1.54.1", features = ["rt", "time", "macros", "sync"] }
reqwest = { version = "=0.12.28", default-features = false, features = ["json"] }
russh-keys = "=0.49.2"
russh = "=0.49.2"
dashmap = "=6.2.1"
redis = { version = "=1.8.1", default-features = false, features = ["tokio-comp"] }
chrono-tz = "0.10"
