[package]
name = "dslx_dash"
version = "0.1.0"
edition = "2021"
publish = false

[dependencies]
chrono = "*"
clap = "*"
crossterm = "*"
notify = "*"
ratatui = "*"
