[package]
name = "quicklist"
version = "0.1.0"
edition = "2021"
publish = false

[dependencies]
rspotify = { version = "=0.12.0", default-features = false, features = ["client-reqwest", "reqwest-rustls-tls"] }
anyhow = "=1.0.104"
async-once-cell = "=0.5.4"
async-recursion = "=1.2.0"
web-sys = "=0.3.107"
serde = { version = "=1.0.229", features = ["derive"] }
