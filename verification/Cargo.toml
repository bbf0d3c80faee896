[package]
name = "handcake"
version = "0.1.0"
edition = "2021"
publish = false

[dependencies]
anyhow = "*"
input-linux = "*"
libc = "*"
log = "*"
midir = "*"
parking_lot = "*"
pretty_env_logger = "*"

[dev-dependencies]
midi-control = "*"
