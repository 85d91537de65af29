[package]
name = "dioxus-virtual-scroll"
version = "0.1.0"
edition = "2021"
publish = false

[dependencies]
dioxus = { version = "0.6", default-features = false, features = ["macro", "html", "signals", "hooks"] }
web-sys = { version = "0.3", features = ["Window", "Document", "Element", "EventTarget", "DomRect", "ResizeObserver", "ResizeObserverEntry", "ResizeObserverSize", "AddEventListenerOptions"] }
js-sys = "0.3"
wasm-bindgen = "0.2"
wasm-bindgen-futures = "0.4"
