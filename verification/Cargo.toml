[package]
name = "python_finder"
version = "0.1.0"
edition = "2021"
publish = false

[dependencies]
winreg = "=0.56.0"
