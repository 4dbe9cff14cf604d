[package]
name = "sigil"
version = "0.1.0"
edition = "2021"
publish = false

[dependencies]
rune = "0.13"
walkdir = "2"
