[package]
name = "scd41"
version = "0.1.0"
edition = "2021"
publish = false

[dependencies]
sensirion-i2c = "*"
clap = { version = "*", features = ["derive"] }
env_logger = "*"
log = "*"
metrics = "*"
metrics-exporter-prometheus = "*"
rppal = "*"
