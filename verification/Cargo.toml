[package]
name = "spectre"
version = "0.1.0"
edition = "2021"
publish = false

[dependencies]
rt-history = "*"
jack = "*"
realfft = "*"
log = "*"
env_logger = "*"
anyhow = "*"
ctrlc = "*"
structopt = "*"
crossterm = "*"
