[package]
name = "literate"
version = "0.1.0"
edition = "2021"
publish = false

[dependencies]
anyhow = "1"
clap = { version = "4", features = ["derive"] }
pulldown-cmark = { version = "0.9", default-features = false }
regex = "1"
tracing = "0.1"
tracing-subscriber = "0.3"
walkdir = "2"
