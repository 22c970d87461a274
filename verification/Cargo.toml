[package]
name = "js_ts_bindings"
version = "0.1.0"
edition = "2021"
publish = false

[dependencies]
heck = "0.5"
indoc = "2"
serde_json = "1"
specta = { version = "=2.0.0-rc.20", features = ["function"] }
specta-typescript = "=0.0.7"
