[package]
name = "reedline-repl-rs"
version = "0.1.0"
edition = "2021"
publish = false

[dependencies]
regex = "1"
reedline = "*"
crossterm = "*"
nu-ansi-term = "*"
yansi = "*"
winapi-util = "*"
