[package]
name = "condition_matcher"
version = "0.1.0"
edition = "2021"
publish = false

[dependencies]
serde_json = "1"
regex = "1"
rayon = "1"
serde = { version = "1", features = ["derive"] }
