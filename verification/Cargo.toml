[package]
name = "check_my_setup"
version = "0.1.0"
edition = "2021"
publish = false

[dependencies]
path-absolutize = "*"
clap = "*"
