[package]
name = "godot_buildpack"
version = "0.1.0"
edition = "2021"
publish = false

[dependencies]
regex = "1"
libcnb = "0.8"
serde = { version = "1", features = ["derive"] }
tempfile = "3"
toml = "0.5"
ureq = "2"
zip = { version = "0.6", default-features = false, features = ["deflate"] }
