[package]
name = "generateprevisibines"
version = "0.1.0"
edition = "2021"
publish = false

[dependencies]
anyhow = "1"
clap = { version = "4", features = ["derive"] }
dialoguer = "0.11"
env_logger = "0.11"
log = "0.4"
walkdir = "2"
