[package]
name = "cathy"
version = "0.1.0"
edition = "2021"
publish = false

[dependencies]
uuid = { version = "*", features = ["v4"] }
log = "*"
env_logger = "*"
chrono = "*"
