[package]
name = "wuerfel"
version = "0.1.0"
edition = "2021"
publish = false

[dependencies]
oorandom = "=11.1.5"
getrandom = "=0.2.17"
getargs = "=0.5.0"
ratatui = "=0.28.1"
