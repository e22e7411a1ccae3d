[package]
name = "tg_image_hosting"
version = "0.1.0"
edition = "2021"
publish = false

[dependencies]
console_error_panic_hook = "*"
frankenstein = { version = "*", features = ["client-reqwest"] }
log = "*"
serde = { version = "*", features = ["derive"] }
wasm-bindgen = "*"
web-sys = { version = "*", features = ["console", "ReadableStream"] }
worker = { version = "*", features = ["d1"] }
