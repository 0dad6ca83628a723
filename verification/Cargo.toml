[package]
name = "forge"
version = "0.1.0"
edition = "2021"
publish = false

[dependencies]
ws = "0.9"
failure = "0.1"

[dev-dependencies]
url = "2"
