[package]
name = "cidar"
version = "0.1.0"
edition = "2021"
publish = false

[dependencies]
regex = "=1.13.1"
serde = { version = "=1.0.229", features = ["derive"] }
serde_json = "=1.0.154"
reqwest = { version = "=0.11.27", default-features = false, features = ["json", "rustls-tls"] }
serenity = "=0.11.7"
tokio = { version = "=1.54.1", features = ["rt-multi-thread", "macros", "fs", "io-util", "time", "sync"] }
log = "=0.4.34"
once_cell = "=1.21.4"
thiserror = "=1.0.69"
tracing-subscriber = { version = "=0.3.23", features = ["env-filter"] }
sentry = { version = "=0.31.8", default-features = false }
