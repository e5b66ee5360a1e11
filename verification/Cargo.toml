[package]
name = "native_db"
version = "0.1.0"
edition = "2021"
publish = false

[dependencies]
failure = "0.1"
failure_derive = "0.1"
lazy_static = "1"
libc = "0.2"
sled = "0.34"
