[package]
name = "katex"
version = "0.4.0"
edition = "2021"
publish = false

[dependencies]
quick-js = "0.4"
ducc = "*"
js-sys = "0.3"
wasm-bindgen = "0.2"
thiserror = "1"
