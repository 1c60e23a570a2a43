[package]
name = "sa"
version = "0.1.0"
edition = "2021"
publish = false

[dependencies]
anyhow = "*"
chrono = "*"
clap = { version = "4", features = ["derive"] }
colored = "*"
env_logger = "*"
log = "*"
strip-ansi-escapes = "*"
thiserror = "*"
