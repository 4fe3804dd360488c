[package]
name = "semantic_editor"
version = "0.1.0"
edition = "2021"
publish = false

[dependencies]
md5 = "0.7"
clap = "2"
fern = "0.6"
log = "0.4"
hyper = "0.10"
libc = "0.2"
nix = { version = "0.29", features = ["term", "fs", "signal", "ioctl"] }
mioco = "0.8"
rustbox = "0.11"
