[package]
name = "minidsp"
version = "0.1.0"
edition = "2021"
publish = false

[dependencies]
clap = { version = "4", features = ["derive"] }
hound = "3.5"
rand = "0.9"
rand_distr = "0.5"
