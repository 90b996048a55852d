[package]
name = "timers"
version = "0.1.0"
edition = "2021"
publish = false

[dependencies]
crossterm = "*"
seahorse = "*"
termios = "*"
