[package]
name = "leaf"
version = "0.1.0"
edition = "2021"
publish = false

[dependencies]
image = "0.24"
imageproc = "0.23"
qrcode-generator = "4"
wasm-bindgen = "0.2"
console_error_panic_hook = "0.1"

[dev-dependencies]
rqrr = { version = "*", default-features = false }
