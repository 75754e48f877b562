[package]
name = "watch_upload"
version = "0.1.0"
edition = "2021"
rust-version = "1.95"
publish = false

[dependencies]
anyhow = "1"
confy = "=0.5.1"
futures = "0.3"
log = "0.4"
notify = "=6.1.1"
pretty_env_logger = "=0.5.0"
serde = "1"
serde_derive = "1"
sysinfo = "=0.29.11"
takecell = "=0.1.1"
teloxide = "=0.12.2"
tokio = { version = "1", features = ["fs", "macros", "rt-multi-thread", "time"] }
