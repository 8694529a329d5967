[package]
name = "empire_client"
version = "0.1.0"
edition = "2021"
publish = false

[dependencies]
serde = { version = "1", features = ["derive"] }
serde_json = "1"
wasm-bindgen = "0.2"
js-sys = "0.3"
web-sys = { version = "0.3", features = ["CanvasRenderingContext2d", "HtmlCanvasElement", "WebSocket", "MessageEvent", "KeyboardEvent", "MouseEvent", "Window", "Document", "Element", "HtmlElement", "DomRect", "TextMetrics", "Location", "Performance", "CssStyleDeclaration", "console", "EventTarget", "Event", "Node"] }
