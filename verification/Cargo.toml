[package]
name = "mania_core"
version = "0.1.0"
edition = "2021"
publish = false

[dependencies]
osu_format = "*"
quicksilver = "0.3"
