[package]
name = "cec_dpms"
version = "0.1.0"
edition = "2021"
publish = false

[dependencies]
cec-rs = "=12.0.2"
clap = { version = "=3.2.25", features = ["derive"] }
hostname = "=0.3.1"
log = "=0.4.34"
signal-hook = "=0.3.18"
simplelog = { version = "=0.11.2", features = ["paris", "ansi_term"] }
