[package]
name = "process_viewer"
version = "0.1.0"
edition = "2021"
publish = false

[dependencies]
color-eyre = "*"
nix = { version = "*", features = ["inotify"] }
paris = "*"
procfs = "*"
