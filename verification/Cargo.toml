[package]
name = "white_border_adder"
version = "0.1.0"
edition = "2021"
publish = false

[dependencies]
image = { version = "0.25", default-features = false, features = ["jpeg", "png"] }
clap = { version = "4", features = ["derive"] }
