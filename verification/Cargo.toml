[package]
name = "auth_tarball_from_git"
version = "0.1.0"
edition = "2021"
publish = false

[dependencies]
clap = { version = "*", features = ["derive"] }
env_logger = "*"
log = "*"
tempfile = "*"
tokio = { version = "*", features = ["full"] }
