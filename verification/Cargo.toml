[package]
name = "server_discovery"
version = "0.1.0"
edition = "2021"
publish = false

[dependencies]
a2s = "*"
serde = { version = "*", features = ["derive"] }
serde_json = "*"
tokio = { version = "*", features = ["full"] }
