[package]
name = "komodo"
version = "0.1.0"
edition = "2021"
publish = false

[dependencies]
capstone = "*"
goblin = "*"
os_info = "*"
tempfile = "*"
