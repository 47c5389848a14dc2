[package]
name = "image_filter"
version = "0.1.0"
edition = "2021"
publish = false

[dependencies]
base64 = "=0.22.1"
image = { version = "=0.24.9", default-features = false, features = ["png", "jpeg", "gif", "bmp", "ico", "tiff", "webp", "pnm", "tga"] }
jpeg-decoder = { version = "=0.3.2", default-features = false, features = ["platform_independent"] }
wasm-bindgen = "=0.2.129"
