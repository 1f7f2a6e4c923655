[package]
name = "oxfeed_front"
version = "0.1.0"
edition = "2021"
publish = false

[dependencies]
sha2 = "0.10"
hmac = "0.12"
jwt = "0.16"
jsonwebtoken = "*"
serde = { version = "1", features = ["derive"] }
serde_json = "1"
uuid = { version = "1", features = ["v4", "serde"] }
regex = "1"
log = { version = "0.4", features = ["serde"] }
elephantry-extras = "*"
reqwest = { version = "0.12", default-features = false, features = ["json"] }
wasm-cookies = "*"
yew = { version = "0.21", features = ["csr"] }
yew-router = "0.18"
yew-callback = "*"
gloo = "0.11"
web-sys = "0.3"
wasm-bindgen = "0.2"
futures = "0.3"
wasm-logger = "*"
chrono = "0.4"
chrono-humanize = "*"
anyhow = "1"
http = "1"
