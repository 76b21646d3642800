[package]
name = "crypto_bro"
version = "0.1.0"
edition = "2021"
publish = false

[dependencies]
arboard = { version = "3", default-features = false }
base64 = "0.21"
clap = { version = "4", features = ["derive"] }
crossterm = "0.27"
hex = "0.4"
openssl = "0.10"
rand = "0.8"
ring = "0.17"
sha2 = "0.10"
uuid = { version = "1", features = ["v4"] }
