[package]
name = "ai_token_prelude"
version = "0.1.0"
edition = "2021"
publish = false

[dependencies]
proxy-wasm = "0.2"
http = "1"
multimap = "0.10"
serde = { version = "1", features = ["derive"] }
serde_json = "1"
