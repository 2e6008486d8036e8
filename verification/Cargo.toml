[package]
name = "web_tester"
version = "0.1.0"
edition = "2021"
publish = false

[dependencies]
ehttp = "=0.5.0"
serde_json = "=1.0.154"
poll-promise = "=0.3.0"
egui = { version = "=0.27.2", default-features = false }
egui_extras = { version = "=0.27.2", default-features = false }
wasm-bindgen-futures = "=0.4.79"
