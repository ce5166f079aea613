[package]
name = "pcf85063"
version = "0.1.0"
edition = "2021"
publish = false

[dependencies]
embedded-hal-async = "1"
time = { version = "0.3", default-features = false }
