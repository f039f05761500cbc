[package]
name = "module-homa-lite"
version = "0.1.0"
edition = "2021"
publish = false

[dependencies]
sp-arithmetic = "4.0.0"
