[package]
name = "nablo"
version = "0.1.0"
edition = "2021"
publish = false

[dependencies]
time = { version = "0.3", features = ["serde"] }
utf8_slice = "1"
serde = { version = "1", features = ["derive"] }
serde_json = "1"
rayon = "1"
anyhow = "1"
image = { version = "0.24", default-features = false, features = ["png"] }
resvg = "0.40"
