[package]
name = "tower_retry"
version = "0.1.0"
edition = "2021"
publish = false

[dependencies]
tower-service = "*"
