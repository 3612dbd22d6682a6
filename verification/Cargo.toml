[package]
name = "nix_inspect"
version = "0.1.0"
edition = "2021"
publish = false

[dependencies]
anyhow = "*"
clap = { version = "*", features = ["derive"] }
crossterm = "*"
directories = "*"
kanal = "*"
nix = { version = "*", features = ["hostname"] }
ratatui = "*"
serde = { version = "*", features = ["derive"] }
serde_json = "*"
