[package]
name = "beancount_tui"
version = "0.1.0"
edition = "2021"
publish = false

[dependencies]
beancount-parser = "2"
clap = { version = "4", features = ["derive"] }
color-eyre = "0.6"
ratatui = "0.29"
rust_decimal = "1"
thiserror = "1"
tui-textarea = "0.7"
