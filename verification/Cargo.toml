[package]
name = "dfiles"
version = "0.1.0"
edition = "2021"
publish = false

[dependencies]
anyhow = "=1.0.104"
chrono-tz = "=0.10.4"
clap = "=4.6.7"
directories-next = "=2.0.0"
dockworker = "=0.17.0"
futures = "=0.3.34"
log = "=0.4.34"
pretty_env_logger = "=0.5.0"
serde = { version = "=1.0.229", features = ["derive"] }
serde_json = "=1.0.154"
serde_yaml = "=0.9.34"
tar = "=0.4.46"
tempfile = "=3.27.0"
thiserror = "=1.0.69"
tokio = { version = "=1.54.1", features = ["rt"] }
users = "=0.11.0"
