[package]
name = "calmonth"
version = "0.1.0"
edition = "2021"
publish = false

[dependencies]
chrono = "*"
crossterm = "*"
term_grid = "*"
unicode-width = "*"
