[package]
name = "log_tail"
version = "0.1.0"
edition = "2021"
publish = false

[dependencies]
chrono = "*"
