[package]
name = "nes_emu"
version = "0.1.0"
edition = "2021"
publish = false

[dependencies]
rand = "=0.8.8"
yew = "=0.19.3"
wasm-bindgen = "*"
wasm-bindgen-futures = "*"
js-sys = "*"
web-sys = { version = "*", features = ["Window", "Document", "Element", "Node", "EventTarget", "CanvasRenderingContext2d", "HtmlCanvasElement", "HtmlSpanElement", "KeyboardEvent"] }
gloo-render = "*"
gloo-timers = "*"
reqwasm = "*"
wasm-logger = "*"
