[package]
name = "coffee_level"
version = "0.1.0"
edition = "2021"
publish = false

[dependencies]
ansi_term = "*"
chrono = "*"
