[package]
name = "priority_future"
version = "0.1.0"
edition = "2021"
publish = false

[dependencies]
pin-project = "1"
