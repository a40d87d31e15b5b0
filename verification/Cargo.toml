[package]
name = "tracks_rs"
version = "0.1.0"
edition = "2021"
publish = false

[dependencies]
ahash = "=0.8.12"
glam = "=0.34.1"
log = "=0.4.34"
palette = { version = "=0.7.7", default-features = false, features = ["std"] }
serde_json = "=1.0.154"
slotmap = "=1.1.1"
smallvec = "=1.16.4"
uuid = { version = "1", features = ["v4"] }
