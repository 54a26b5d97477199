[package]
name = "momitroll"
version = "0.1.0"
edition = "2021"
publish = false

[dependencies]
anyhow = "*"
bson = "*"
chrono = "*"
clap = { version = "*", features = ["derive"] }
colored = "*"
futures = "*"
mongodb = "*"
serde = { version = "*", features = ["derive"] }
serde_json = "*"
tokio = { version = "*", features = ["macros", "rt-multi-thread"] }
toml = "*"
tracing = "*"
tracing-subscriber = "*"
walkdir = "*"
