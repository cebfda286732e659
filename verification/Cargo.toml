[package]
name = "gclone"
version = "0.1.0"
edition = "2021"
publish = false

[dependencies]
url = "2"
tokei = "12"
clap = { version = "4", features = ["derive"] }
clap-verbosity-flag = "*"
color-eyre = "*"
directories = "*"
env_logger = "*"
eyre = "*"
inquire = "*"
log = "0.4"
