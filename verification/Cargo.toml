[package]
name = "qui_vive"
version = "0.1.0"
edition = "2021"
publish = false

[dependencies]
rand = "0.8"
time = "0.3"
url = "2"
uuid = "1"
mouscache = "*"
ctrlc = "3"
clap = "4"
log = "0.4"
env_logger = "*"
