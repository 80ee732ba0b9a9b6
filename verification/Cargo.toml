[package]
name = "qraw"
version = "0.1.0"
edition = "2021"
publish = false

[dependencies]
regex = "*"
itertools = "*"
ratatui = "*"
crossterm = "*"
color-eyre = "*"
