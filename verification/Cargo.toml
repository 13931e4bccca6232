[package]
name = "collied"
version = "0.1.0"
edition = "2021"
publish = false

[dependencies]
axum = "*"
base64 = "=0.23.1"
chrono = "=0.4.45"
clap = { version = "*", features = ["derive"] }
daemonize = "*"
http = "=1.5.0"
jsonwebtoken = { version = "=11.1.0", features = ["rust_crypto"] }
rand = "=0.8.8"
rusqlite = { version = "=0.31.0", features = ["bundled"] }
serde = { version = "*", features = ["derive"] }
serde_json = "=1.0.151"
thiserror = "*"
tokio = { version = "*", features = ["full"] }
toml = "*"
