[package]
name = "vecta"
version = "0.1.0"
edition = "2021"
publish = false

[dependencies]
clap = { version = "4", features = ["derive", "cargo"] }
env_home = "0.1"
serde = { version = "1", features = ["derive"] }
tantivy = "0.22"
toml = "0.8"
walkdir = "2"
