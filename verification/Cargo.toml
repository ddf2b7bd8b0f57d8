[package]
name = "git_releaser"
version = "0.1.0"
edition = "2021"
publish = false

[dependencies]
semver = "=1.0.28"
serde = { version = "=1.0.229", features = ["derive"] }
serde_json = { version = "=1.0.154", features = ["preserve_order"] }
toml = { version = "=0.8.23", features = ["preserve_order"] }
chrono = "=0.4.45"
clap = { version = "=4.6.7", features = ["derive"] }
eyre = "=0.6.14"
log = "=0.4.34"
env_logger = "=0.11.11"
dialoguer = "=0.12.0"
tokio = { version = "=1.54.1", features = ["rt-multi-thread", "macros"] }
hubcaps = "=0.6.2"
