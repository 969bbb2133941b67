[package]
name = "nexus_vpc"
version = "0.1.0"
edition = "2021"
publish = false

[dependencies]
anyhow = "1"
chrono = "0.4"
clap = { version = "4", features = ["derive"] }
cookie = "0.18"
http = "1"
ipnetwork = "0.20"
serde = { version = "1", features = ["derive"] }
serde_with = "3"
slog = "2"
tempfile = "3"
thiserror = "1"
tokio = { version = "1", features = ["fs", "io-util", "macros", "process", "rt", "sync", "time"] }
tokio-postgres = "0.7"
toml = "0.8"
url = "2"
uuid = { version = "1", features = ["v4"] }
