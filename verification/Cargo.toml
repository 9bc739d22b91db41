[package]
name = "apple_mail"
version = "0.1.0"
edition = "2021"
publish = false

[dependencies]
mailparse = "*"
thiserror = "*"
anyhow = "*"
env_logger = "*"
clap = { version = "4", features = ["derive"] }
