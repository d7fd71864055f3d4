[package]
name = "secwords"
version = "2.1.0"
edition = "2021"
publish = false

[dependencies]
hex = "*"
sha2 = "0.9"
unicode-normalization = "*"
utils-results = "*"
vep = "*"
zeroize = "*"
