[package]
name = "cleave"
version = "0.1.0"
edition = "2021"
publish = false

[dependencies]
image = "*"
chrono = { version = "*", default-features = false, features = ["clock", "std"] }
clap = { version = "*", features = ["derive"] }
arboard = { version = "*", default-features = false, features = ["image-data"] }
device_query = "*"
