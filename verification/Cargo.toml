[package]
name = "syncbops"
version = "0.1.0"
edition = "2021"
publish = false

[dependencies]
serde_json = "*"
rapidhash = "*"
serde = { version = "*", features = ["derive"] }
clap = { version = "*", features = ["derive"] }
walkdir = "*"
rayon = "*"
indicatif = { version = "*", features = ["rayon"] }
dirs = "*"
fs_extra = "*"
dialoguer = "*"
