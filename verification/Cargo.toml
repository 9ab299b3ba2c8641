[package]
name = "rucaptcha"
version = "0.1.0"
edition = "2021"
publish = false

[dependencies]
image = { version = "=0.24.9", default-features = false, features = ["png", "jpeg", "webp"] }
imageproc = "=0.23.1"
magnus = "=0.6.4"
owned_ttf_parser = "=0.15.2"
rand = "=0.8.8"
rusttype = "=0.9.3"
