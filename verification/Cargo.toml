[package]
name = "modsurfer"
version = "0.1.0"
edition = "2021"
publish = false

[dependencies]
anyhow = "=1.0.104"
clap = "=4.6.7"
colored = "=2.2.0"
comfy-table = "=6.2.0"
human_bytes = "=0.4.3"
parse-size = "=1.1.0"
reqwest = { version = "=0.11.27", default-features = false, features = ["rustls-tls"] }
serde = { version = "=1.0.229", features = ["derive"] }
serde_json = "=1.0.154"
serde_yaml = "=0.9.34"
similar = "=2.7.0"
tokio = { version = "=1.54.1", features = ["full"] }
url = "=2.5.8"
wasmparser = "0.107"
