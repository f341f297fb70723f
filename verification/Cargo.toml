[package]
name = "rs_get"
version = "0.1.0"
edition = "2021"
publish = false

[dependencies]
clap = "4"
indicatif = "*"
reqwest = { version = "*", features = ["blocking"] }
