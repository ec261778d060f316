[package]
name = "dideban"
version = "0.1.0"
edition = "2021"
publish = false

[dependencies]
toml = "*"
colored = "*"
chrono = "*"
directories = "*"
log = "*"
actix-web = { version = "*", default-features = false }
