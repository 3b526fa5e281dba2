[package]
name = "dominion"
version = "0.1.0"
edition = "2021"
publish = false

[dependencies]
rand = "0.8"
chrono = "0.4"
clap = "3"
strum = "0.24"
strum_macros = "0.24"
