[package]
name = "gdl"
version = "0.1.0"
edition = "2021"
publish = false

[dependencies]
image = { version = "0.24", default-features = false, features = ["png", "jpeg"] }
imageproc = "0.23"
palette = "0.6"
rusttype = "0.9"
time = "0.1"
wasm-bindgen = "0.2"
web-sys = { version = "0.3", features = ["CanvasGradient", "CanvasRenderingContext2d", "Document", "Element", "HtmlCanvasElement", "HtmlElement", "ImageData", "Node", "TextMetrics", "Window"] }
