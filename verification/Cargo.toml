[package]
name = "mute_indicator"
version = "0.1.0"
edition = "2021"
publish = false

[dependencies]
anyhow = "*"
windows = "*"
windows-core = "*"
windows-link = "*"
