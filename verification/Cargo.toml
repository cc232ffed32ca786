[package]
name = "clicker"
version = "0.1.0"
edition = "2021"
publish = false

[dependencies]
rand = "*"
crossbeam = "*"
enigo = "*"
global-hotkey = "*"
