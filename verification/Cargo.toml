[package]
name = "bevy_spacetimedb"
version = "0.1.0"
edition = "2021"
publish = false

[dependencies]
bevy = { version = "=0.18.1", default-features = false, features = ["std"] }
spacetimedb-sdk = "=2.2.0"
wasm-bindgen-futures = "=0.4.58"
