[package]
name = "jwt_codec"
version = "0.1.0"
edition = "2021"
publish = false

[dependencies]
jwt-simple = "=0.11.9"
serde = { version = "=1.0.229", features = ["derive"] }
serde_json = "=1.0.154"
serde-wasm-bindgen = "=0.6.5"
wasm-bindgen = "=0.2.129"
