[package]
name = "deckgl_session"
version = "0.1.0"
edition = "2021"
publish = false

[dependencies]
wasm-bindgen = "*"
js-sys = "*"
web-sys = { version = "*", features = ["Window", "Document", "Element", "HtmlCanvasElement"] }
serde = { version = "*", features = ["derive"] }
serde_json = "*"
console_error_panic_hook = "*"
