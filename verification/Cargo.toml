[package]
name = "termscp"
version = "0.4.0"
edition = "2021"
publish = false

[dependencies]
regex = "1"
ssh2 = "0.9"
tui = { version = "0.15", default-features = false, features = ["crossterm"] }
crossterm = "0.19"
edit = "0.1"
