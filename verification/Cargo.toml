[package]
name = "ffsend_upload"
version = "0.1.0"
edition = "2021"
publish = false

[dependencies]
url = "*"
clap = "2"
rpassword = "*"
