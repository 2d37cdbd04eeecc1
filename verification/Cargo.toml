[package]
name = "hue"
version = "0.1.0"
edition = "2021"
publish = false

[dependencies]
anyhow = "1"
huelib = "*"
prettytable-rs = "*"
structopt = "0.3"
toml = "*"
xdg = "*"
