[package]
name = "panic_hook"
version = "0.1.0"
edition = "2021"
publish = false

[dependencies]
backtrace = "*"
