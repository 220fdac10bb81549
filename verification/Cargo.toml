[package]
name = "clar2wasm"
version = "0.1.0"
edition = "2021"
publish = false

[dependencies]
walrus = "=0.27.2"
