[package]
name = "miniview"
version = "0.1.0"
edition = "2021"
publish = false

[dependencies]
image = "*"
clap = "2"
piston_window = "*"
