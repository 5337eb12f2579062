[package]
name = "joshuto_nav"
version = "0.1.0"
edition = "2021"
publish = false

[dependencies]
toml = "=1.1.7"
