[package]
name = "stress_suite"
version = "0.1.0"
edition = "2021"
publish = false

[dependencies]
anyhow = "1"
clap = { version = "4", features = ["derive"] }
databend-driver = "*"
env_logger = "*"
futures-util = "0.3"
log = "0.4"
tokio = { version = "1", features = ["full"] }
