[package]
name = "icepaper"
version = "0.1.0"
edition = "2021"
publish = false

[dependencies]
toml = "=0.8.23"
xdg = "=2.5.2"
notify = "=8.2.0"
async-std = "=1.13.2"
bytemuck = "1"
