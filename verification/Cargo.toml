[package]
name = "rustfolio"
version = "0.1.0"
edition = "2021"
publish = false

[dependencies]
argon2 = "0.5"
uuid = { version = "1", features = ["v4"] }
rand = "0.8"
time = "0.3"
lettre = { version = "0.11", default-features = false, features = ["smtp-transport", "builder"] }
