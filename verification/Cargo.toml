[package]
name = "clip_downloader"
version = "0.1.0"
edition = "2021"
publish = false

[dependencies]
structopt = "=0.3.26"
serde = { version = "=1.0.229", features = ["derive"] }
serde_json = "=1.0.151"
tokio = { version = "=0.2.25", features = ["full"] }
reqwest = { version = "=0.10.10", default-features = false }
twitch-api-rs = "=0.2.1"
indicatif = "=0.18.6"
log = "=0.4.34"
pretty_env_logger = "=0.5.0"
