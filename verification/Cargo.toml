[package]
name = "asciimath_inline"
version = "0.1.0"
edition = "2021"
publish = false

[dependencies]
asciimath-unicode = "*"
wasm-bindgen = "*"
