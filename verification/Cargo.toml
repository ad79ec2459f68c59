[package]
name = "tmg"
version = "0.1.0"
edition = "2021"
publish = false

[dependencies]
chrono = "0.4"
dirs = "2.0"
structopt = "0.3"
termion = "1.5"
tui = "0.9"
