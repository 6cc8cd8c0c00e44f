[package]
name = "tsn"
version = "0.1.0"
edition = "2021"
publish = false

[dependencies]
clap = { version = "3.2", features = ["cargo"] }
itertools = "0.10"
libc = "0.2"
nix = "0.26"
num-derive = "0.3"
num-format = "0.4"
num-traits = "0.2"
pnet = "*"
pnet_macros = "*"
pnet_macros_support = "*"
pnet_packet = "*"
rand = "0.8"
signal-hook = "0.3"
socket = "*"
