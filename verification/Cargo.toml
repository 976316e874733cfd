[package]
name = "iced_quicksilver_renderer"
version = "0.1.0"
edition = "2021"
publish = false

[dependencies]
lyon = "0.15"
iced_native = "0.2"
quicksilver = { version = "0.3", default-features = false, features = ["fonts"] }
env_logger = "0.7"
derivative = "2"
