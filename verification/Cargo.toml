[package]
name = "calc_service"
version = "0.1.0"
edition = "2021"
publish = false

[dependencies]
rocket = "0.4"
serde_json = "1"
