[package]
name = "wasm_app"
version = "0.1.0"
edition = "2021"
publish = false

[dependencies]
wee_alloc = "*"
