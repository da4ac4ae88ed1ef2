[package]
name = "sxredder"
version = "0.1.0"
edition = "2021"
publish = false

[dependencies]
clap = { version = "4", features = ["derive"] }
color-eyre = "0.6"
crossterm = "0.25"
tracing = "0.1"
tracing-subscriber = "0.3"
tui = "0.19"
