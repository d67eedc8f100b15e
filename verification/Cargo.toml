[package]
name = "unicaptions"
version = "0.1.0"
edition = "2021"
publish = false

[dependencies]
serde = { version = "=1.0.229", features = ["derive"] }
serde_json = { version = "=1.0.154", features = ["float_roundtrip"] }
tokenizers = { version = "=0.23.2", default-features = false, features = ["onig"] }
reqwest = { version = "=0.12.28", default-features = false, features = ["json", "multipart", "stream", "rustls-tls"] }
futures-util = "=0.3.34"
cpal = "=0.18.2"
whisper-rs = "=0.16.0"
