[package]
name = "samd_hal"
version = "0.1.0"
edition = "2021"
publish = false

[dependencies]
embassy-sync = "*"

[dev-dependencies]
critical-section = { version = "*", features = ["std"] }
futures = "*"
