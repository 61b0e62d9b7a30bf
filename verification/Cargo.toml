[package]
name = "knot"
version = "0.1.0"
edition = "2021"
publish = false

[dependencies]
base32 = "0.4"
comrak = { version = "0.14", default-features = false }
getopts = "0.2"
mustache = "0.9"
rust-crypto = "0.2.36"
toml = "0.5"
