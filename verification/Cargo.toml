[package]
name = "vnr"
version = "0.1.0"
edition = "2021"
publish = false

[dependencies]
attohttpc = { version = "*", default-features = false }
flate2 = "*"
headers = "*"
log = "*"
simplelog = "*"
tar = "*"
tee = "*"
thiserror = "*"
