[package]
name = "galaxy"
version = "0.1.0"
edition = "2021"
publish = false

[dependencies]
crossterm = "0.27"
image = { version = "0.24", default-features = false, features = ["png"] }
noise = "0.9"
rand = "0.8"
rand_chacha = "0.3"
rand_distr = "0.4"
serde = { version = "1", features = ["derive"] }
serde_json = "1"
