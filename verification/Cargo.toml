[package]
name = "chart_js_rs"
version = "0.1.0"
edition = "2021"
publish = false

[dependencies]
rust_decimal = "1"
uuid = { version = "1", features = ["v4"] }
serde_json = "1"
serde = { version = "1", features = ["derive"] }
wasm-bindgen = "0.2"
js-sys = "0.3"
web-sys = { version = "0.3", features = ["Blob", "BlobPropertyBag", "CssStyleDeclaration", "Document", "DomRect", "Element", "EventTarget", "HtmlCanvasElement", "MessageEvent", "MouseEvent", "OffscreenCanvas", "Url", "Window", "Worker", "WorkerGlobalScope", "WorkerOptions", "WorkerType"] }
gloo-utils = { version = "0.2", features = ["serde"] }
gloo-console = "0.3"
serde-wasm-bindgen = "0.6"
tokio = { version = "1", features = ["sync"] }
