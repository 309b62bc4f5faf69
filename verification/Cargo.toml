[package]
name = "pkce_loopback"
version = "0.1.0"
edition = "2021"
publish = false

[dependencies]
base64 = "0.22"
log = "0.4"
open = "5"
rand = "0.8"
serde = { version = "1", features = ["derive"] }
sha2 = "0.10"
tauri = { version = "2", default-features = false }
tiny_http = "0.12"
urlencoding = "2"
