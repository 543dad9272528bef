[package]
name = "component_builder"
version = "0.1.0"
edition = "2021"
publish = false

[dependencies]
wasm-encoder = "*"
