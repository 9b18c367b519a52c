[package]
name = "utask"
version = "0.1.0"
edition = "2021"
publish = false

[dependencies]
axerrno = "*"
bytemuck = { version = "*", features = ["derive"] }

[dev-dependencies]
linux-raw-sys = "*"
