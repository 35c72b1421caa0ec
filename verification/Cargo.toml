[package]
name = "five_dice"
version = "0.1.0"
edition = "2021"
publish = false

[dependencies]
rand = "0.7"
js-sys = "0.3"
wasm-bindgen = "0.2"
console_error_panic_hook = "0.1"
web-sys = { version = "0.3", features = ["Attr", "CanvasRenderingContext2d", "Document", "DomRect", "Element", "EventTarget", "HtmlCanvasElement", "HtmlElement", "MouseEvent", "Node", "Text", "TextMetrics", "Window", "console"] }
