[package]
name = "surface_renderer"
version = "0.1.0"
edition = "2021"
publish = false

[dependencies]
wgpu = { version = "23", features = ["webgl"] }
wasm-bindgen = "0.2"
wasm-bindgen-futures = "0.4"
web-sys = { version = "0.3", features = ["HtmlCanvasElement"] }
