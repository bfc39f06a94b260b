[package]
name = "wire_conversions"
version = "0.1.0"
edition = "2021"
publish = false

[dependencies]
linera-base = "0.14"
