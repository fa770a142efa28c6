[package]
name = "komac"
version = "0.1.0"
edition = "2021"
publish = false

[dependencies]
encoding_rs = "*"
xxhash-rust = { version = "*", features = ["xxh3"] }
html2text = "*"
inquire = "*"

[dev-dependencies]
regex = "*"
