[package]
name = "unity_assets"
version = "0.1.0"
edition = "2021"
publish = false

[dependencies]
byteorder = "1"
wasm-bindgen = "0.2"
