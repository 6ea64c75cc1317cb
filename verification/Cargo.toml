[package]
name = "fastfetch"
version = "0.1.0"
edition = "2021"
publish = false

[dependencies]
unicode-width = "*"
crossterm = "*"
sysinfo = "*"
battery = "*"
chrono = "*"
lazy_static = "*"
winreg = "*"
