[package]
name = "pie"
version = "0.1.0"
edition = "2021"
publish = false

[dependencies]
lazy-init = "0.5"
