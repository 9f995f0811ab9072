[package]
name = "price_sniffer"
version = "0.1.0"
edition = "2021"
publish = false

[dependencies]
rust_decimal = { version = "*", features = ["db-postgres"] }
regex = "*"
postgres = "*"
reqwest = { version = "*", default-features = false, features = ["blocking", "rustls-tls"] }
yaml-rust = "*"
log = "*"
simplelog = "*"
