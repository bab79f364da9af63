[package]
name = "ipyprev"
version = "0.1.0"
edition = "2021"
publish = false

[dependencies]
serde = "*"
serde_json = "*"
structopt = "*"
syntect = { version = "*", default-features = false, features = ["default-fancy"] }
