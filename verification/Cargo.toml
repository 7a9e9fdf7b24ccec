[package]
name = "sasd"
version = "0.1.0"
edition = "2021"
publish = false

[dependencies]
rmpv = "1.3.1"
hex = "=0.3.2"
rand = "=0.4.6"

[dev-dependencies]
tempdir = "=0.3.7"
