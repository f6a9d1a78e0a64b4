[package]
name = "rpi_sim868"
version = "0.1.1"
edition = "2021"
publish = false

[dependencies]
uuid = { version = "*", features = ["v4"] }
rppal = "*"
url = "*"
serde = { version = "*", features = ["derive"] }
serde_json = "*"
serde_url_params = "*"
tokio = { version = "*", features = ["rt", "rt-multi-thread", "time", "sync", "macros"] }
log = "*"
simple_logger = "*"
chrono = "*"
