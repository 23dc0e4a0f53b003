[package]
name = "glc"
version = "0.1.0"
edition = "2021"
publish = false

[dependencies]
itertools = "*"
bytemuck = { version = "1", features = ["derive"] }
wasm-bindgen = "0.2"
web-sys = { version = "0.3", features = ["Window", "Document", "Element", "HtmlCanvasElement", "CanvasRenderingContext2d", "ImageData"] }
