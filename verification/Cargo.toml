[package]
name = "cgmemtime"
version = "0.1.0"
edition = "2021"
publish = false

[dependencies]
clap = { version = "*", features = ["derive"] }
clone3 = "*"
nix = "=0.26.4"
tempfile = "*"
