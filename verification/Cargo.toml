[package]
name = "pkm_rs"
version = "0.1.0"
edition = "2021"
publish = false

[dependencies]
binrw = { version = "=0.15.2", default-features = false }
