[package]
name = "cartesi_machine_wasm"
version = "0.1.0"
edition = "2021"
publish = false

[dependencies]
console_error_panic_hook = "0.1"
hex = "=0.4.3"
serde_json = "1"
wasm-bindgen = "0.2"
wee_alloc = "0.4"
