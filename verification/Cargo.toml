[package]
name = "sharky_env"
version = "0.1.0"
edition = "2021"
publish = false

[dependencies]
slab = "0.4"
parking_lot = "0.12"
libloading = "0.8"
