[package]
name = "artichat"
version = "0.1.0"
edition = "2021"
publish = false

[dependencies]
aes-gcm = "0.10"
base64 = "0.22"
crossterm = "0.28"
ratatui = "0.29"
