[package]
name = "arcwrap"
version = "0.1.0"
edition = "2021"
publish = false

[dependencies]
clap = { version = "3", features = ["derive"] }
itertools = "0.10"
tempfile = "3"
which = "4"
