[package]
name = "upgrade_strategy"
version = "0.1.0"
edition = "2021"
publish = false

[dependencies]
serde_urlencoded = "0.7"
serde = { version = "1", features = ["derive"] }
serde_yaml = "0.9"
yew = { version = "0.21", features = ["csr"] }
yew-hooks = "0.3"
web-sys = { version = "0.3", features = ["HtmlInputElement", "Event", "EventTarget", "KeyboardEvent", "MouseEvent"] }
gloo-net = "0.6"
gloo-console = "0.3"
gloo-storage = "0.3"
wasm-bindgen-futures = "0.4"
sycamore = "0.9"
