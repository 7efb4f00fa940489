[package]
name = "http2-proto"
version = "0.0.2"
edition = "2021"
publish = false

[dependencies]
bytes = "1"
rustls = { version = "0.23", default-features = false, features = ["std", "tls12", "ring"] }
webpki-roots = "0.26"
