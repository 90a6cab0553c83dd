[package]
name = "memfd"
version = "0.1.0"
edition = "2021"
publish = false

[dependencies]
either = "*"
rustix = { version = "*", features = ["fs"] }
