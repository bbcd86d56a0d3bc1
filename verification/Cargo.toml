[package]
name = "gg"
version = "0.1.0"
edition = "2021"
publish = false

[dependencies]
anyhow = "=1.0.104"
jj-lib = { version = "=0.32.0", default-features = false }
pollster = "=0.4.0"
tokio = { version = "1", default-features = false, features = ["io-util"] }
