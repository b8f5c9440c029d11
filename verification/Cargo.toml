[package]
name = "probe"
version = "0.1.0"
edition = "2021"
publish = false

[dependencies]
ropey = "1.6.1"
base64ct = { version = "1.6", features = ["alloc"] }
ratatui = "0.29"
crossterm = "0.28"
