[package]
name = "graphit"
version = "0.1.0"
edition = "2021"
publish = false

[dependencies]
fnv = "1"
rand = "0.9"
thiserror = "2"
wasm-bindgen = "0.2"
