[package]
name = "cec_audio"
version = "0.1.0"
edition = "2021"
publish = false

[dependencies]
arrayvec = "*"
cec-rs = "*"
env_logger = "*"
log = "*"
serde = { version = "*", features = ["derive"] }
toml = "*"
