[package]
name = "margo"
version = "0.1.0"
edition = "2021"
publish = false

[dependencies]
anyhow = "*"
clap = { version = "*", features = ["derive"] }
crossterm = "*"
dirs = "*"
inquire = "*"
nu-ansi-term = "*"
nucleo-matcher = "*"
ratatui = "*"
reedline = "*"
sha2 = "*"
time = "*"
