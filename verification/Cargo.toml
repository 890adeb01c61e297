[package]
name = "brrr"
version = "0.1.0"
edition = "2021"
publish = false

[dependencies]
regex = "1"
curl = "0.4"
crossterm = "0.25"
tui = "0.19"
