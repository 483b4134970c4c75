[package]
name = "catnip"
version = "0.1.0"
edition = "2021"
publish = false

[dependencies]
rusqlite = "*"
dotenv = "*"
time = "*"
