[package]
name = "codex"
version = "0.1.0"
edition = "2021"
publish = false

[dependencies]
chrono = "*"
uuid = { version = "*", features = ["v4"] }
serde = { version = "*", features = ["derive"] }
serde_json = "*"
tokio = { version = "*", features = ["rt", "macros", "sync", "time", "io-util"] }
reqwest = { version = "*", default-features = false, features = ["json", "stream"] }
futures = "*"
bytes = "*"
eventsource-stream = "*"
tokio-util = { version = "*", features = ["io"] }
clap = { version = "*", features = ["derive"] }
