[package]
name = "webvnc"
version = "0.1.0"
edition = "2021"
publish = false

[dependencies]
flate2 = "1"
web-sys = { version = "0.3", features = ["KeyboardEvent", "MouseEvent"] }
