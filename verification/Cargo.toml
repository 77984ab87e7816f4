[package]
name = "viz-js"
version = "0.1.0"
edition = "2021"
publish = false

[dependencies]
js-sys = "=0.3.106"
wasm-bindgen = "=0.2.129"
wasm-bindgen-futures = "=0.4.79"
web-sys = { version = "=0.3.106", features = ["SvgsvgElement", "Window"] }
