[package]
name = "fift_host"
version = "0.1.0"
edition = "2021"
publish = false

[dependencies]
fift = "*"
fift-libs = "*"
