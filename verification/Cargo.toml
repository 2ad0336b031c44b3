[package]
name = "framecap"
version = "0.1.0"
edition = "2021"
publish = false

[dependencies]
bytesize = "*"
chrono = "*"
clap = "*"
image = "*"
rprompt = "*"
