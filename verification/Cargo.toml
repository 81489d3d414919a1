[package]
name = "sdmmc"
version = "0.1.0"
edition = "2021"
publish = false

[dependencies]
sdio-host = "0.9"
embassy-time = "*"
block-device-driver = "*"
aligned = "*"
cortex-m = "0.7"
