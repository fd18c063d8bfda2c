[package]
name = "strangemood"
version = "0.1.0"
edition = "2021"
publish = false

[dependencies]
anchor-lang = "=0.29.0"
anchor-spl = { version = "=0.29.0", default-features = false, features = ["token", "token_2022"] }
spl-token = { version = "=4.0.3", features = ["no-entrypoint"] }
