[package]
name = "adamantite"
version = "0.1.0"
edition = "2021"
publish = false

[dependencies]
blake2 = "0.10"
hex = "0.4"
url = "2"
reqwest = { version = "0.12", default-features = false, features = ["blocking"] }
toml = "*"
which = "*"
