[package]
name = "pop3_rs"
version = "0.1.0"
edition = "2021"
publish = false

[dependencies]
md-5 = "0.8"
openssl = "0.10"

[dev-dependencies]
regex = "1"
