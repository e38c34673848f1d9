[package]
name = "rusty_tuner"
version = "0.1.0"
edition = "2021"
publish = false

[dependencies]
anyhow = "1"
cpal = "0.17"
image = { version = "0.25", default-features = false, features = ["png"] }
pitch-detection = "*"
