[package]
name = "ll"
version = "2.0.0"
edition = "2021"
publish = false

[dependencies]
chrono = "0.4"
colorful = "*"
size_format = "*"
clap = "2"
