[package]
name = "warp_embed"
version = "0.1.0"
edition = "2021"
publish = false

[dependencies]
mime_guess = "=2.0.5"
rust-embed = "*"
warp = { version = "=0.3.7", default-features = false }
