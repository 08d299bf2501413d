[package]
name = "cameleon_u3v"
version = "0.1.0"
edition = "2021"
publish = false

[dependencies]
libc = "0.2"
libusb1-sys = { version = "0.7", features = ["vendored"] }
rusb = { version = "0.9", features = ["vendored"] }
