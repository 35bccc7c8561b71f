[package]
name = "webxr"
version = "0.1.0"
edition = "2021"
publish = false

[dependencies]
euclid = "0.22"
log = "0.4"
time = "0.1"
