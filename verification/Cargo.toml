[package]
name = "checklist"
version = "0.1.0"
edition = "2021"
publish = false

[dependencies]
console = "*"
dialoguer = "*"
reqwest = { version = "*", default-features = false, features = ["blocking"] }
