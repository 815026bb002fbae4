[package]
name = "fii"
version = "0.1.0"
edition = "2021"
publish = false

[dependencies]
app_dirs = "1"
clap = "2"
time = "0.1"
toml = "0.4"
