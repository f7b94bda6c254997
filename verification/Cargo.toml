[package]
name = "nbmon"
version = "0.1.0"
edition = "2021"
publish = false

[dependencies]
anyhow = "1"
bytesize = "1"
crossterm = "*"
ratatui = "*"
rayon = "1"
reqwest = { version = "*", default-features = false, features = ["blocking", "rustls-tls"] }
