[package]
name = "ym_file_parser"
version = "0.2.0"
edition = "2021"
publish = false

[dependencies]
arrayvec = "0.7"
chrono = { version = "0.4", default-features = false, features = ["std"] }
delharc = "*"
log = "0.4"
