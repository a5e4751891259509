[package]
name = "huali_desktop"
version = "0.1.0"
edition = "2021"
publish = false

[dependencies]
serde_json = "=1.0.154"
tiny_http = "=0.12.0"
urlencoding = "=2.1.3"
url = "=2.5.8"
