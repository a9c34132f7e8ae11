[package]
name = "neurodesk"
version = "0.1.0"
edition = "2021"
publish = false

[dependencies]
comrak = { version = "=0.59.0", default-features = false, features = ["syntect-fancy"] }
serde = { version = "=1.0.229", features = ["derive"] }
serde_json = "=1.0.154"
tokio = { version = "=1.54.1", features = ["sync", "macros", "rt"] }
tokio-util = "=0.7.20"
tokio-stream = "=0.1.19"
ollama-rs = { version = "=0.3.6", default-features = false, features = ["stream", "rustls"] }
anyhow = "=1.0.104"
wasm-bindgen = "=0.2.130"
js-sys = "=0.3.107"
web-sys = { version = "=0.3.107", features = ["Window", "Document", "Element", "DomTokenList", "Event", "MouseEvent", "KeyboardEvent"] }
serde-wasm-bindgen = "=0.6.5"
leptos = { version = "*", features = ["csr"] }
leptos_router = "*"
leptos-use = { version = "*", default-features = false, features = ["use_clipboard"] }
