[package]
name = "fmod_oxide"
version = "0.1.0"
edition = "2021"
publish = false

[dependencies]
regex = "1"
indexmap = "2"
clap = { version = "4", features = ["derive"] }
color-eyre = "0.6"
clang = "2"
