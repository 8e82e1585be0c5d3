[package]
name = "trap_core"
version = "0.1.0"
edition = "2021"

[dependencies]
x86_64 = { version = "=0.15.5", default-features = false, features = ["instructions"] }
lazy_static = "=1.5.1"
