[package]
name = "bootstrap"
version = "0.1.0"
edition = "2021"
publish = false

[dependencies]
image = "=0.25.10"
local-ip-address = "=0.6.13"
qrcode = "=0.14.1"
tokio = { version = "=1.53.2", features = ["macros", "rt-multi-thread"] }
warp = { version = "=0.4.3", features = ["compression", "server"] }
