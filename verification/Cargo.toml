[package]
name = "kurec"
version = "0.1.0"
edition = "2021"
publish = false

[dependencies]
semver = "=1.0.28"
chrono = { version = "=0.4.45", features = ["serde"] }
heck = "=0.5.0"
humantime = "=2.4.0"
serde = { version = "=1.0.229", features = ["derive"] }
serde_json = "=1.0.154"
anyhow = "=1.0.104"
thiserror = "=1.0.69"
clap = { version = "=4.6.7", features = ["derive"] }
tokio = { version = "=1.54.1", features = ["macros", "rt-multi-thread", "signal", "sync", "time"] }
tokio-util = "=0.7.20"
futures = "=0.3.34"
async-trait = "=0.1.92"
tracing = "=0.1.44"
tracing-subscriber = { version = "=0.3.23", features = ["env-filter"] }
reqwest = { version = "0.12", default-features = false }
