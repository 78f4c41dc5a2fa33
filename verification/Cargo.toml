[package]
name = "wayscriber"
version = "0.1.0"
edition = "2021"
publish = false

[dependencies]
cairo-rs = { version = "*", default-features = false }
