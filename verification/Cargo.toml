[package]
name = "hello_triangle"
version = "0.1.0"
edition = "2021"
publish = false

[dependencies]
glow = "*"
sdl2 = "*"
wasm-bindgen = "*"
web-sys = { version = "*", features = ["Document", "Element", "HtmlCanvasElement", "WebGl2RenderingContext", "Window"] }
