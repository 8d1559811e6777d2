[package]
name = "cryptde"
version = "0.1.0"
edition = "2021"
publish = false

[dependencies]
base64 = "*"
rand = "0.8"
sha1 = "0.6"
actix = "*"
ethsign-crypto = "*"
tiny-keccak = { version = "2", features = ["keccak"] }
