[package]
name = "fks_config"
version = "0.1.0"
edition = "2021"
publish = false

[dependencies]
anyhow = "1"
axum = "0.7"
clap = { version = "4", features = ["derive"] }
schemars = "0.8"
serde = { version = "1", features = ["derive"] }
serde_json = "1"
serde_path_to_error = "0.1"
serde_yaml = "0.9"
tokio = { version = "1", features = ["rt-multi-thread", "net"] }
tracing = "0.1"
tracing-subscriber = "0.3"
