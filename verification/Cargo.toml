[package]
name = "pam_shim"
version = "0.1.0"
edition = "2021"
publish = false

[dependencies]
libc = "=0.2.191"
serde = { version = "=1.0.229", features = ["derive"] }
serde-brief = { version = "=0.2.0", features = ["std"] }
