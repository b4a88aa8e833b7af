[package]
name = "fonline_tnf"
version = "0.1.0"
edition = "2021"
publish = false

[dependencies]
encoding_rs = "0.8"
serde = { version = "1", features = ["derive"] }
toml = "0.5"
colorsys = "0.6"
