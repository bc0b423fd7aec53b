[package]
name = "vello_bench2"
version = "0.1.0"
edition = "2021"
publish = false

[dependencies]
png = "=0.18.1"
image = { version = "=0.25.10", default-features = false, features = ["png", "jpeg", "gif", "webp"] }
brotli-decompressor = "=5.0.3"
wasm-bindgen = "=0.2.130"
js-sys = "=0.3.107"
web-sys = { version = "=0.3.107", features = ["Window", "Document", "Element", "Node", "HtmlElement", "HtmlCanvasElement", "HtmlInputElement", "HtmlButtonElement", "CssStyleDeclaration", "WebGl2RenderingContext", "WebGlTexture", "Storage", "Performance", "Response"] }
log = "=0.4.35"
console_log = "=1.1.0"
console_error_panic_hook = "=0.1.7"
serde = { version = "=1.0.229", features = ["derive"] }
serde_json = "=1.0.154"
vello_common = { version = "=0.2.0", features = ["probe"] }
vello_hybrid = { version = "=0.2.0", default-features = false, features = ["webgl", "probe"] }
