[package]
name = "base_ui_leptos"
version = "0.1.0"
edition = "2021"
publish = false

[dependencies]
leptos = "0.8"
reactive_stores = "0.2"
wasm-bindgen = "0.2"
web-sys = { version = "0.3", features = ["Window", "Document", "Element", "HtmlElement", "HtmlImageElement", "CssStyleDeclaration", "Navigator", "MediaQueryList", "Event", "EventTarget", "MouseEvent", "PointerEvent", "DomRect", "console"] }
