[package]
name = "composer"
version = "0.1.0"
edition = "2021"
publish = false

[dependencies]
anyhow = "1"
chrono = "0.4"
chrono-humanize = "0.2"
clap = { version = "4", features = ["derive"] }
gitignore = "1"
log = "0.4"
minijinja = "1"
owo-colors = { version = "3", features = ["supports-colors"] }
petname = "1"
regex = "1"
serde = { version = "1", features = ["derive"] }
serde_json = "1"
serde_yaml = "0.9"
walkdir = "2"
