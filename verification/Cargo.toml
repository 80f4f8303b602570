[package]
name = "admin_key"
version = "0.1.0"
edition = "2021"
publish = false

[dependencies]
regex = "1"
serial2 = "*"
notify-rust = "4"
clippers = "*"
