[package]
name = "sabi-agent"
version = "0.1.0"
edition = "2021"
publish = false

[dependencies]
anyhow = "1"
clap = { version = "4", features = ["derive"] }
dotenvy = "0.15"
ignore = "0.4"
reqwest = { version = "0.12", default-features = false, features = ["json", "rustls-tls"] }
rustyline = "14"
serde = { version = "1", features = ["derive"] }
serde_json = "1"
similar = "2"
thiserror = "1"
time = { version = "0.3", features = ["serde", "serde-well-known", "formatting", "parsing"] }
tokio = { version = "1", features = ["full"] }
toml = "0.8"
tracing-subscriber = "0.3"
uuid = { version = "1", features = ["v7"] }
