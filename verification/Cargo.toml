[package]
name = "client_sdk"
version = "0.1.0"
edition = "2021"
publish = false

[dependencies]
arrayvec = "0.7"
base64 = "0.13"
byteorder = "1"
const-random = "0.1"
http = "1"
iso8601-timestamp = "0.3"
itoa = "1"
percent-encoding = "2"
rustc-hash = "2"
serde = { version = "1", features = ["derive"] }
serde_json = "1"
smol_str = "0.3"
thin-vec = "0.2"
time = "0.3"
