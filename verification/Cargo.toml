[package]
name = "rustdeck"
version = "0.1.0"
edition = "2021"
publish = false

[dependencies]
axum = "0.8"
base64 = "0.22"
chrono = "0.4"
indexmap = "2"
libloading = "0.8"
obws = "*"
parking_lot = "0.12"
rayon = "1"
regex = "1"
serde = { version = "1", features = ["derive"] }
serde_json = "1"
system_shutdown = "*"
tokio = { version = "1", features = ["rt", "net"] }
tower-http = { version = "0.6", features = ["cors", "trace"] }
tracing = "0.1"
tracing-subscriber = "0.3"
