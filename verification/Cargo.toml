[package]
name = "blog"
version = "0.1.0"
edition = "2021"
publish = false

[dependencies]
rocket = "0.5"
