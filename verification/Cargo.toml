[package]
name = "lan_camera"
version = "0.1.0"
edition = "2021"
publish = false

[dependencies]
axum = { version = "0.7", features = ["ws"] }
axum-server = { version = "0.7", features = ["tls-rustls"] }
futures-util = "0.3"
local-ip-address = "0.6"
rcgen = "0.13"
rustls = { version = "0.23", features = ["ring"] }
