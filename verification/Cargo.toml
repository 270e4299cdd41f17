[package]
name = "bad64"
version = "0.1.0"
edition = "2021"
publish = false

[dependencies]
bad64-sys = "*"
