[package]
name = "rustarok_client"
version = "0.1.0"
edition = "2021"
publish = false

[dependencies]
encoding = "0.2"
sublime_fuzzy = "0.7"
