[package]
name = "sopush"
version = "0.1.0"
edition = "2021"
publish = false

[dependencies]
zip = { version = "*", default-features = false, features = ["deflate"] }
anyhow = "1"
structopt = "0.3"
tracing = "0.1"
tracing-subscriber = "0.3"
walkdir = "2"
