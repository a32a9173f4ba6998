[package]
name = "mxr_tui"
version = "0.1.0"
edition = "2021"
publish = false

[dependencies]
chrono = "0.4"
regex = "1"
htmlescape = "0.3"
crossterm = "*"
