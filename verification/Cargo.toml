[package]
name = "boba_cat"
version = "0.1.0"
edition = "2021"
publish = false

[dependencies]
regex = "1"
active-win-pos-rs = "0.9"
xcb = "1"
gtk = "0.18"
