[package]
name = "http_kit"
version = "0.1.0"
edition = "2021"
publish = false

[dependencies]
async-fs = "2"
bytes = "1"
bytestr = "*"
cookie = "0.18"
eyre = "0.6"
futures-lite = "2"
http = "1"
http-body = "1"
http-body-util = "0.1"
mime = "0.3"
pin-project-lite = "0.2"
serde = "1"
serde_json = "1"
serde_urlencoded = "0.7"
