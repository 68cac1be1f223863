[package]
name = "ingat"
version = "0.1.0"
edition = "2021"
publish = false

[dependencies]
ahash = { version = "=0.8.12", default-features = false, features = ["std"] }
anyhow = "=1.0.104"
async-stream = "=0.3.6"
axum = "=0.7.9"
bincode = "=1.3.3"
chrono = { version = "=0.4.45", features = ["serde"] }
directories = "=5.0.1"
futures = "=0.3.34"
parking_lot = "=0.12.5"
serde = { version = "=1.0.229", features = ["derive"] }
serde_json = "=1.0.154"
sled = "=0.34.7"
thiserror = "=1.0.69"
tokio = { version = "=1.54.1", features = ["rt-multi-thread", "macros", "net", "time", "io-std", "io-util", "signal", "sync"] }
tracing = "=0.1.44"
tracing-subscriber = { version = "=0.3.23", features = ["env-filter"] }
ureq = { version = "=2.12.1", default-features = false, features = ["json"] }
urlencoding = "=2.1.3"
uuid = { version = "=1.29.0", features = ["v4", "serde"] }
which = "=6.0.3"
