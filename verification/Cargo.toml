[package]
name = "clear_file_preserve_meta"
version = "0.1.0"
edition = "2021"
publish = false

[dependencies]
regex = "1"
path-slash = "0.2"
filetime = "0.2"
clap = { version = "4", features = ["derive"] }
