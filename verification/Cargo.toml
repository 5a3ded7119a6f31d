[package]
name = "oxidizer"
version = "0.1.0"
edition = "2021"
publish = false

[dependencies]
clap = { version = "4", features = ["derive"] }
hound = "3"
rand = "0.9"
symphonia = { version = "0.5", features = ["mp3"] }
thiserror = "2"
