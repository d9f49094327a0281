[package]
name = "int-interval"
version = "0.1.0"
edition = "2021"
publish = false

[dependencies]

[dev-dependencies]
proptest = "1"
