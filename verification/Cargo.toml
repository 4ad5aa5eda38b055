[package]
name = "mctui"
version = "0.1.0"
edition = "2021"
publish = false

[dependencies]
crossbeam-channel = "0.5"
failure = "0.1"
lazy_static = "1"
termion = "1.5"
tui = { version = "0.19", default-features = false, features = ["termion"] }
