[package]
name = "rosbag2_rs"
version = "0.1.0"
edition = "2021"
publish = false

[dependencies]
rusqlite = { version = "*", features = ["bundled"] }
serde = { version = "*", features = ["derive"] }
serde_yaml = "*"

[dev-dependencies]
tempfile = "*"
