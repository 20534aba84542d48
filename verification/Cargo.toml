[package]
name = "jefe_ui"
version = "0.1.0"
edition = "2021"
publish = false

[dependencies]
iocraft = "*"
crossterm = "*"
