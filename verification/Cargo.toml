[package]
name = "rocket_launcher"
version = "0.1.0"
edition = "2021"
publish = false

[dependencies]
md-5 = "0.10"
sha1 = "0.10"
sha2 = "0.10"
base64 = "0.22"
lzma-rs = "0.3"
quick-xml = "0.36"
flate2 = "1"
serde = { version = "1", features = ["derive"] }
serde_json = "1"
sysinfo = "0.33"
discord-rich-presence = "0.2"
rayon = "1"
tokio = { version = "1", features = ["full"] }
reqwest = { version = "0.12", default-features = false, features = ["json", "rustls-tls", "stream"] }
hyper = { version = "1", features = ["server", "http1"] }
hyper-util = { version = "0.1", features = ["tokio"] }
http-body-util = "0.1"
