[package]
name = "windowing"
version = "0.1.0"
edition = "2021"
publish = false

[dependencies]
futures = "0.3"
raw-window-handle = "0.5"
tokio = { version = "1", features = ["net", "rt"] }
smithay-client-toolkit = "0.16"
wasm-bindgen = "0.2"
wasm-bindgen-futures = "0.4"
js-sys = "0.3"
web-sys = { version = "0.3", features = ["Window", "Document", "Element", "HtmlCanvasElement"] }
