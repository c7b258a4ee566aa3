[package]
name = "matrix_tui"
version = "0.1.0"
edition = "2021"
publish = false

[dependencies]
async-trait = "0.1"
chrono = "0.4"
clap = { version = "3", features = ["derive"] }
crossterm = "0.23"
futures = "0.3"
matrix-sdk = "0.5"
notify-rust = "4"
textwrap = "0.15"
tokio = { version = "1", features = ["full"] }
tui = "0.18"
unicode-width = "0.1"
url = "2"
