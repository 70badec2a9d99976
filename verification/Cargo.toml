[package]
name = "openapi_tui"
version = "0.1.0"
edition = "2021"
publish = false

[dependencies]
syntect = { version = "*", default-features = false, features = ["default-fancy"] }
oas3 = "*"
ratatui = "*"
crossterm = "*"
serde_yaml = "*"
