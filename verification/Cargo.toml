[package]
name = "deez_notes"
version = "0.1.0"
edition = "2021"
publish = false

[dependencies]
anyhow = "=1.0.104"
chrono = "=0.4.45"
clap = { version = "=4.6.7", features = ["derive"] }
dirs = "=7.0.0"
gray_matter = "=0.2.9"
nucleo-matcher = "=0.3.1"
pulldown-cmark = "=0.13.6"
ratatui = "=0.30.2"
semver = "=1.0.28"
serde = { version = "=1.0.229", features = ["derive"] }
serde_json = "=1.0.154"
serde_yml = "=0.0.13"
slug = "=0.1.6"
toml = "=1.1.8"
ureq = { version = "=2.12.1", features = ["json"] }

[dev-dependencies]
tempfile = "=3.27.0"
