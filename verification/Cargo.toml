[package]
name = "tldr"
version = "0.1.0"
edition = "2021"
publish = false

[dependencies]
flate2 = "*"
curl = "*"
tar = "*"
time = "*"
ansi_term = "*"
docopt = "*"
serde = { version = "*", features = ["derive"] }
