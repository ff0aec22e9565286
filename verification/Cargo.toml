[package]
name = "voice_capture"
version = "0.1.0"
edition = "2021"
publish = false

[dependencies]
ringbuf = "=0.4.8"
anyhow = "=1.0.104"
futures-util = "=0.3.34"
tokio = { version = "=1.54.1", features = ["rt", "macros", "sync", "time"] }
tracing = "=0.1.44"
serde = { version = "=1.0.229", features = ["derive"] }
serde_json = "=1.0.154"
thiserror = "=1.0.69"
strum = { version = "=0.26.3", features = ["derive"] }
cidre = "*"
cpal = "*"
rodio = "*"
objc2 = "*"
objc2-foundation = "*"
