[package]
name = "speck"
version = "0.1.0"
edition = "2021"
publish = false

[dependencies]
librespot = { version = "=0.8.0", default-features = false, features = ["rustls-tls-webpki-roots"] }
log = "*"
env_logger = "*"
vergen = "=9.0.6"
