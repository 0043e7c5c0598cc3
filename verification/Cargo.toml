[package]
name = "guardianboot"
version = "0.1.0"
edition = "2021"
publish = false

[dependencies]
uefi = { version = "0.24", features = ["alloc"] }
uefi-services = { version = "0.21", default-features = false }
