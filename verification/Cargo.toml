[package]
name = "spottag"
version = "0.1.0"
edition = "2021"
publish = false

[dependencies]
url = "2"
id3 = "1"
futures = "0.3"
rspotify = "*"
librespot = { version = "*", default-features = false }
