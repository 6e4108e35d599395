[package]
name = "inofd"
version = "0.1.0"
edition = "2021"
publish = false

[dependencies]
clap = { version = "4", features = ["derive"] }
fiemap = "*"
jwalk = "*"
nix = { version = "*", features = ["fs"] }
