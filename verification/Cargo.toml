[package]
name = "g1_humongous"
version = "0.1.0"
edition = "2021"
publish = false

[dependencies]
regex = "1"
histogram = "0.6"
clap = { version = "3", features = ["derive"] }
cli-table = "0.4"
