[package]
name = "iced_lazy"
version = "0.1.0"
edition = "2021"
publish = false

[dependencies]
iced_native = "*"
iced_style = "*"
ouroboros = "*"
