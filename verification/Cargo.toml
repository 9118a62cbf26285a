[package]
name = "a2x"
version = "0.1.0"
edition = "2021"
publish = false

[dependencies]
uuid = { version = "=1.29.0", features = ["v7"] }
unescaper = "=0.2.0"
clap = { version = "=4.6.7", features = ["derive"] }
env_logger = "=0.11.11"
log = "=0.4.34"
miette = { version = "=7.6.0", features = ["fancy"] }
walkdir = "=2.5.0"
xml-rs = "=1.0.0"
