[package]
name = "rumbas"
version = "0.1.0"
edition = "2021"
publish = false

[dependencies]
semver = "=1.0.28"
sanitize-filename = "=0.5.0"
serde = { version = "=1.0.229", features = ["derive"] }
serde_yaml = "=0.9.34"
clap = { version = "=4.6.7", features = ["derive"] }
log = "=0.4.35"
regex = "=1.13.1"
yaml-subset = "=0.1.19"
clap_complete = "4"
