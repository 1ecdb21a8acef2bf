[package]
name = "png_icc"
version = "0.1.0"
edition = "2021"
publish = false

[dependencies]
png = "0.18"
wasm-bindgen = "0.2"
