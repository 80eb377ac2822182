[package]
name = "ifi_relayer"
version = "0.1.0"
edition = "2021"
publish = false

[dependencies]
actix-rt = "*"
actix-web = "*"
awc = "*"
clap = { version = "*", features = ["derive"] }
clarity = "*"
env_logger = "*"
log = "*"
num-traits = "*"
rustls = "*"
serde = { version = "*", features = ["derive"] }
web30 = "*"
