[package]
name = "ibdl_extractors"
version = "0.1.0"
edition = "2021"
publish = false

[dependencies]
ahash = "0.8"
urlencoding = "2"
reqwest = { version = "0.12", default-features = false, features = ["json", "rustls-tls"] }
tokio = { version = "1", features = ["sync", "time", "rt", "macros"] }
serde = { version = "1", features = ["derive"] }
serde_json = "1"
toml = "0.8"
bincode = "1"
thiserror = "1"
once_cell = "1"
bitflags = "2"
log = "0.4"
wasm-bindgen = "0.2"
serde-wasm-bindgen = "0.6"
