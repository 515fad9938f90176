[package]
name = "herdr_sidebar"
version = "0.1.0"
edition = "2021"
publish = false

[dependencies]
crossterm = "0.29"
ratatui = "0.30"
serde_json = "1"
