[package]
name = "error_forge"
version = "0.1.0"
edition = "2021"
publish = false

[dependencies]
atty = "0.2"
log = "0.4"
rand = "0.8"
tracing = "0.1"
