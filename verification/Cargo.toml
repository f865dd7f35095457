[package]
name = "fd_lock"
version = "0.1.0"
edition = "2021"
publish = false

[dependencies]
rustix = { version = "*", features = ["fs"] }

[dev-dependencies]
tempfile = "*"
