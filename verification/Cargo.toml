[package]
name = "talpid_core"
version = "0.1.0"
edition = "2021"
publish = false

[dependencies]
tun = { version = "0.7", features = ["async"] }
