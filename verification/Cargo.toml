[package]
name = "hidewatch"
version = "0.1.0"
edition = "2021"
publish = false

[dependencies]
anyhow = "*"
clap = { version = "*", features = ["derive"] }
notify = "*"
walkdir = "*"
winapi = { version = "*", features = ["fileapi", "winnt", "minwindef"] }
