[package]
name = "hls_playlist"
version = "0.1.0"
edition = "2021"
publish = false

[dependencies]
lexical = "*"
logos = "*"
thiserror = "*"
