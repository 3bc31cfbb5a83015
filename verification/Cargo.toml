[package]
name = "gmc_logger"
version = "0.1.0"
edition = "2021"
publish = false

[dependencies]
clap = "2"
serialport = { version = "3", default-features = false }
ureq = { version = "1", default-features = false }
