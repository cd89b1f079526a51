[package]
name = "dirtree"
version = "0.1.0"
edition = "2021"
publish = false

[dependencies]
regex = "1"
chrono = { version = "0.4", default-features = false, features = ["std"] }
colored = "2"
clap = { version = "4", features = ["derive"] }
