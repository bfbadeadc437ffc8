[package]
name = "unifi_port"
version = "0.1.0"
edition = "2021"
publish = false

[dependencies]
anyhow = "1"
clap = { version = "4", features = ["derive"] }
config = "0.14"
env_logger = "0.11"
log = "0.4"
reqwest = { version = "0.12", features = ["blocking", "cookies", "json"] }
serde = { version = "1", features = ["derive"] }
serde_json = "1"
thiserror = "1"
