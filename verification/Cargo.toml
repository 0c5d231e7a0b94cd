[package]
name = "flipperzero"
version = "0.1.0"
edition = "2021"
publish = false

[dependencies]
flipperzero-sys = "=0.11.0"
