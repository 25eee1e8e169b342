[package]
name = "sprint_backend"
version = "0.1.0"
edition = "2021"
publish = false

[dependencies]
zeroize = "1"
sha2 = "0.10"
hex = "0.4"
rand = "0.8"
libc = "0.2"
thiserror = "1"
lazy_static = "1"
