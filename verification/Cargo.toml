[package]
name = "xorcism"
version = "0.1.0"
edition = "2021"
publish = false

[dependencies]
atty = "0.2"
base64 = "0.13"
color-eyre = "0.6"
structopt = "0.3"
