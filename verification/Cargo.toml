[package]
name = "rustls_post_quantum"
version = "0.1.0"
edition = "2021"
publish = false

[dependencies]
aws-lc-rs = { version = "1", features = ["unstable"] }
rustls = "0.23"
