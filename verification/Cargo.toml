[package]
name = "osrm_parser"
version = "0.1.0"
edition = "2021"
publish = false

[dependencies]
geo = { version = "*", default-features = false }
polyline = "*"
serde = { version = "1", features = ["derive"] }
serde_json = "1"
uuid = { version = "1", features = ["v4"] }
