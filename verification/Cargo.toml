[package]
name = "letta"
version = "0.1.3"
edition = "2021"
publish = false

[dependencies]
serde = { version = "=1.0.229", features = ["derive"] }
serde_json = "=1.0.154"
uuid = { version = "=1.29.0", features = ["v4", "serde"] }
chrono = { version = "=0.4.45", features = ["serde"] }
url = { version = "=2.5.8", features = ["serde"] }
reqwest = { version = "=0.12.28", default-features = false, features = ["json", "stream", "multipart"] }
tokio = { version = "=1.54.1", features = ["time", "macros", "rt", "rt-multi-thread"] }
futures = "=0.3.34"
rand = "=0.8.8"
miette = { version = "=7.6.0", features = ["fancy"] }
thiserror = "=1.0.69"
eventsource-stream = "=0.2.3"
bytes = "=1.12.1"
serde_urlencoded = "=0.7.1"
clap = { version = "4", features = ["derive", "env"] }
env_logger = "0.11"
