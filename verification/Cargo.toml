[package]
name = "riptop"
version = "0.1.0"
edition = "2021"
publish = false

[dependencies]
sysinfo = { version = "0.23", default-features = false }
tui = "0.19"
crossterm = "0.25"
