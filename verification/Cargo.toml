[package]
name = "c20web"
version = "1.0.0"
edition = "2021"
publish = false

[dependencies]
clap = "2"
config = { version = "0.13", default-features = false, features = ["toml"] }
log = "0.4"
log4rs = "1"
threadpool = "1"
