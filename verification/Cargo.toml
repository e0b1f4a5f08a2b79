[package]
name = "leptonic_root"
version = "0.1.0"
edition = "2021"
publish = false

[dependencies]
leptos = { version = "=0.6.15", features = ["csr"] }
leptos-use = "0.13"
tracing = "=0.1.44"
wasm-bindgen = "=0.2.129"
web-sys = { version = "=0.3.106", features = ["CssStyleDeclaration", "Document", "Element", "Event", "HtmlElement", "KeyboardEvent", "MouseEvent", "Navigator", "Window"] }
