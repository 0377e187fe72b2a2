[package]
name = "acronymia"
version = "0.1.0"
edition = "2021"
publish = false

[dependencies]
serde_json = "1"
leptos = { version = "0.6", features = ["csr"] }
leptos_meta = { version = "0.6", features = ["csr"] }
leptos_router = { version = "0.6", features = ["csr"] }
gloo-net = { version = "0.6", features = ["websocket"] }
futures = "0.3"
log = "0.4"
console_log = "1"
console_error_panic_hook = "0.1"
wasm-bindgen = "0.2"
web-sys = { version = "0.3", features = ["Storage", "Window", "Location"] }
uuid = { version = "1", features = ["v4"] }
cfg-if = "1"
