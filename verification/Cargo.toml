[package]
name = "async_ops"
version = "0.1.0"
edition = "2021"
publish = false

[dependencies]
triple_buffer = "*"
