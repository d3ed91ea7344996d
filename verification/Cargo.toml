[package]
name = "frost_tune"
version = "0.8.3"
edition = "2021"
publish = false

[dependencies]
chrono = "0.4"
serde = { version = "1", features = ["derive"] }
serde_json = "1"
dirs = "5"
hidapi = "2"
nix = { version = "0.29", features = ["user"] }
thiserror = "1"
log = "0.4"
env_logger = "0.11"
