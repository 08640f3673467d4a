[package]
name = "oma"
version = "0.1.0"
edition = "2021"
publish = false

[dependencies]
sha2 = "0.10"
reqwest = { version = "0.12", default-features = false, features = ["blocking"] }

[dev-dependencies]
hex = "0.4"
