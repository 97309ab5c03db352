[package]
name = "netsniff"
version = "0.1.0"
edition = "2021"
publish = false

[dependencies]
pnet = "*"
ratatui = "*"
crossterm = "*"
color-eyre = "*"
