[package]
name = "velo"
version = "0.1.0"
edition = "2021"
publish = false

[dependencies]
ropey = "1"
tree-sitter = "*"
toml = "*"
libloading = "*"
tokio = { version = "1", features = ["full"] }
crossterm = "*"
ratatui = "*"
