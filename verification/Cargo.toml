[package]
name = "jieba_async"
version = "0.1.0"
edition = "2021"
publish = false

[dependencies]
jieba-rs = "*"
wasm-bindgen = "*"
js-sys = "*"
wasm-bindgen-futures = "*"
