[package]
name = "terminal_spinners"
version = "0.1.0"
edition = "2021"
publish = false

[dependencies]
crossterm = "0.19"
terminal-emoji = "*"
terminal-log-symbols = "*"
terminal-spinner-data = "*"
