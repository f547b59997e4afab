[package]
name = "heliocron"
version = "0.1.0"
edition = "2021"
publish = false

[dependencies]
chrono = "0.4"
clap = { version = "3", features = ["derive"] }
crossterm = "0.25"
dirs = "4"
serde = { version = "1", features = ["derive"] }
serde_json = "1"
toml = "0.5"
