[package]
name = "signalgen"
version = "0.1.0"
edition = "2021"
publish = false

[dependencies]
ratatui = "=0.25.0"
crossterm = "=0.27.0"
cpal = "=0.15.3"
