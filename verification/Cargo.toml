[package]
name = "gat"
version = "0.1.0"
edition = "2021"
publish = false

[dependencies]
homedir = "0.3"
ratatui = "0.29"
regex = "1"
