[package]
name = "password_generator"
version = "0.1.0"
edition = "2021"
publish = false

[dependencies]
clap = { version = "4", features = ["derive"] }
cli-clipboard = "0.4"
rand = "0.8"
self_update = "*"
