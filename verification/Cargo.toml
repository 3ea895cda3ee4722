[package]
name = "native_locator"
version = "0.1.0"
edition = "2021"
publish = false

[dependencies]
log = "*"
env_logger = "*"

[dev-dependencies]
serde_json = "*"
