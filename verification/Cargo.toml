[package]
name = "rspack"
version = "0.1.0"
edition = "2021"
publish = false

[dependencies]
warp = { version = "=0.4.3", features = ["server"] }
