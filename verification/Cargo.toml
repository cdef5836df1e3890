[package]
name = "git-up"
version = "0.1.0"
edition = "2021"
publish = false

[dependencies]
anyhow = "1"
colored = "2"
env_logger = "0.11"
log = "0.4"
tap = "1"
