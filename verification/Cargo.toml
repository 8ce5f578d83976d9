[package]
name = "commitcanvas"
version = "0.1.0"
edition = "2021"
publish = false

[dependencies]
console_error_panic_hook = "0.1"
log = "0.4"
rand = { version = "0.8", default-features = false, features = ["small_rng"] }
wasm-bindgen = "0.2"
wasm-logger = "0.2"
web-sys = { version = "0.3", features = ["Document", "DomTokenList", "Element", "Event", "EventTarget", "HtmlButtonElement", "HtmlCollection", "HtmlElement", "KeyboardEvent", "MouseEvent", "Node", "SvgElement", "UiEvent", "WheelEvent", "Window"] }
