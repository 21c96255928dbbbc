[package]
name = "rust_terminal"
version = "0.1.0"
edition = "2021"
publish = false

[dependencies]
alacritty_terminal = "0.24"
anyhow = "1"
arboard = { version = "3", default-features = false }
crossterm = "0.28"
ctrlc = "3"
dirs = "5"
env_logger = "0.11"
futures = "0.3"
log = "0.4"
ratatui = "0.29"
signal-hook = "0.3"
