[package]
name = "mailtriage"
version = "0.1.0"
edition = "2021"
publish = false

[dependencies]
anyhow = "*"
arboard = "*"
chrono = "*"
crossterm = "*"
dotenvy = "*"
gray_matter = "*"
ratatui = "*"
shellexpand = "*"
walkdir = "*"
