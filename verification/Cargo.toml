[package]
name = "line_follower"
version = "0.1.0"
edition = "2021"
publish = false

[dependencies]
ev3dev-lang-rust = "*"
ctrlc = "*"
