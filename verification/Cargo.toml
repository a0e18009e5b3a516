[package]
name = "pdf_generator"
version = "0.1.0"
edition = "2021"
publish = false

[dependencies]
typst = "=0.15.1"
typst-as-lib = "=0.17.0"
typst-layout = "=0.15.1"
typst-pdf = "=0.15.1"
serde = { version = "=1.0.229", features = ["derive"] }
serde_json = "=1.0.151"
log = "=0.4.34"
wasm-bindgen = "=0.2.129"
serde-wasm-bindgen = "=0.6.5"
console_log = "=1.1.0"
console_error_panic_hook = "=0.1.7"
wasmi_core = "=1.1.0"

[dev-dependencies]
typst-assets = { version = "=0.15.1", features = ["fonts"] }
