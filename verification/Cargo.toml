[package]
name = "openocd_supervisor"
version = "0.1.0"
edition = "2021"
publish = false

[dependencies]
regex = "1"
user-error = "*"
heim = { version = "0.1.0-rc.1", default-features = false, features = ["process"] }
async-std = "1"
tokio-stream = "0.1"
