[package]
name = "host_binding"
version = "0.1.0"
edition = "2021"
publish = false

[dependencies]
wasmedge-sdk = "*"
wasmedge-sys = "*"
