[package]
name = "logfmt"
version = "0.1.0"
edition = "2021"
publish = false

[dependencies]
supports-color = "*"
time = { version = "*", features = ["local-offset"] }
fern = "*"
log = "*"
