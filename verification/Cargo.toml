[package]
name = "gpx_tools"
version = "0.1.0"
edition = "2021"
publish = false

[dependencies]
gpx = "*"
geo = "*"
anyhow = "*"
clap = { version = "*", features = ["derive"] }
env_logger = "*"
kml = "*"
log = "*"
xml-rs = "*"
