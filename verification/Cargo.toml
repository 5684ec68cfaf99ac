[package]
name = "frame_capture"
version = "0.1.0"
edition = "2021"
publish = false

[dependencies]
image = { version = "*", default-features = false, features = ["png", "gif"] }
mp4 = "*"
openh264 = { version = "*", features = ["source"] }
tempdir = "*"
