[package]
name = "framebridge"
version = "0.1.0"
edition = "2021"
publish = false

[dependencies]
opencv = "*"
tch = "*"
