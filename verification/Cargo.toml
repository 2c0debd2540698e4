[package]
name = "ddc_shob"
version = "0.1.0"
edition = "2021"
publish = false

[dependencies]
flate2 = "1"
globset = "0.4"
log = "0.4"
pretty_env_logger = "0.4"
ssh2 = "0.9"
structopt = "0.3"
tar = "0.4"
uuid = { version = "0.8", features = ["v4"] }
walkdir = "2"
