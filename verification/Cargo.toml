[package]
name = "xcb-util"
version = "0.4.0"
edition = "2021"
publish = false

[dependencies]
libc = "0.2"
xcb = { version = "0.9", features = ["thread", "shm", "render"] }
