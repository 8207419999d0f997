[package]
name = "cursive_markup"
version = "0.1.0"
edition = "2021"
publish = false

[dependencies]
unicode-width = "=0.1.14"
cursive_core = "*"
html2text = "=0.4.5"
