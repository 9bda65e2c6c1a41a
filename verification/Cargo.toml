[package]
name = "onepassword-sdk-unofficial"
version = "0.1.0"
edition = "2021"
publish = false

[dependencies]
base64 = "0.22"
libc = "0.2"
serde_json = "1"

[dev-dependencies]
noprop = "*"
