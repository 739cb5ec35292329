[package]
name = "sonic_pi_tool"
version = "0.1.0"
edition = "2021"
publish = false

[dependencies]
rosc = "*"
dirs = "*"
duct = "*"

[dev-dependencies]
toml = "*"
