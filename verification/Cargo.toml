[package]
name = "shared_models"
version = "0.1.0"
edition = "2021"
publish = false

[dependencies]
renet = "=0.0.9"
uuid = { version = "1", features = ["v4"] }
