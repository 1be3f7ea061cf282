[package]
name = "can-dbc"
version = "0.1.0"
edition = "2021"
publish = false

[dependencies]
nom = { version = "4", features = ["verbose-errors"] }
