[package]
name = "aquarium"
version = "0.1.0"
edition = "2021"
publish = false

[dependencies]
anyhow = "1"
chrono = "0.4"
clap = { version = "3", features = ["derive"] }
env_logger = "0.9"
log = "0.4"
pulldown-cmark = { version = "0.8", default-features = false }
rss = "1"
rusqlite = { version = "0.25", features = ["bundled"] }
serde = { version = "1", features = ["derive"] }
serde_yaml = "0.8"
slug = "0.1"
toml = "0.5"
walkdir = "2"

[dev-dependencies]
regex = "1"
