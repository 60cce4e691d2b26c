[package]
name = "fastfetch_rs"
version = "0.1.0"
edition = "2021"
publish = false

[dependencies]
clap = { version = "4", features = ["derive"] }
crossterm = "*"
gethostname = "*"
glob = "*"
nix = "*"
regex = "1"
