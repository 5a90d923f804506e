[package]
name = "poll_promise"
version = "0.3.0"
edition = "2021"
publish = false

[dependencies]
smol = "2"
