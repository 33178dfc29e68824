[package]
name = "gitstat"
version = "0.1.0"
edition = "2021"
publish = false

[dependencies]
git2 = { version = "*", default-features = false }
chrono = { version = "*", default-features = false, features = ["std"] }
clap = { version = "*", features = ["derive"] }
colored = "*"
prettytable-rs = { version = "*", default-features = false }
