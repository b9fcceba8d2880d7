[package]
name = "noir_rs"
version = "0.1.0"
edition = "2021"
publish = false

[dependencies]
acir = "=0.39.0"
base64 = "=0.21.7"
bincode = "=1.3.3"
flate2 = "=1.1.10"
reqwest = { version = "=0.11.27", features = ["blocking"] }
