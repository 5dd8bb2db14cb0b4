[package]
name = "shell_handoff"
version = "0.1.0"
edition = "2021"
publish = false

[dependencies]
dialoguer = "*"
sysinfo = "*"
