[package]
name = "yocalhost"
version = "0.5.0"
edition = "2021"
publish = false

[dependencies]
async-speed-limit = { version = "0.4", features = ["tokio"] }
byte-unit = "5"
clap = { version = "4", features = ["derive"] }
env_logger = "0.11"
futures = "0.3"
http-body-util = "0.1"
hyper = { version = "1", features = ["full"] }
hyper-staticfile = "0.10"
hyper-util = { version = "0.1", features = ["full"] }
log = "0.4"
tokio = { version = "1", features = ["full"] }
tokio-stream = "0.1"
