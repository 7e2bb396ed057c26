[package]
name = "aeromod"
version = "0.1.0"
edition = "2021"
publish = false

[dependencies]
anyhow = "1"
byteorder = "1"
junction = "1"
serde = { version = "1", features = ["derive"] }
serde_json = "1"
sysinfo = "*"
tempfile = "3"
walkdir = "2"
zip = { version = "*", default-features = false, features = ["deflate"] }
