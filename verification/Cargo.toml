[package]
name = "sqa"
version = "0.1.0"
edition = "2021"
publish = false

[dependencies]
time = "=0.1.45"
uuid = { version = "=1.29.0", features = ["v4"] }
url = "=1.7.2"
rosc = "=0.11.4"
rmp-serde = "=1.3.1"
serde = { version = "=1.0.229", features = ["derive"] }
futures = "=0.1.31"
tokio-core = "=0.1.18"
tokio-io = "=0.1.13"
log = "=0.4.35"
