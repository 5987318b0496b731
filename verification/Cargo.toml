[package]
name = "xmrsplayer"
version = "0.1.0"
edition = "2021"
publish = false

[dependencies]
xmrs = "*"
clap = { version = "*", features = ["derive"] }
console = "*"
rodio = "*"
