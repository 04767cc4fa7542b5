[package]
name = "webxr-api"
version = "0.1.0"
edition = "2021"
publish = false

[dependencies]
euclid = "0.20"
log = "0.4"
surfman-chains-api = "*"
time = "0.1"
