[package]
name = "futuristic_ui"
version = "0.1.0"
edition = "2021"
publish = false

[dependencies]
css-color = "=0.2.8"
css-colors = "=1.0.1"
sauron = "=0.45.2"
sauron-markdown = "=0.45.0"
rphtml = "=0.5.5"
htmlentity = "=1.2.0"
wasm-bindgen = "0.2"
web-sys = { version = "0.3", features = ["HtmlAudioElement", "HtmlMediaElement", "MouseEvent", "Document", "Element", "HtmlHeadElement", "Location", "Node", "Window"] }
base64 = "0.13"
log = "0.4"
console_log = "0.2"
console_error_panic_hook = "0.1"
wee_alloc = "0.4"
