[package]
name = "binper"
version = "0.1.0"
edition = "2021"
publish = false

[dependencies]
scroll = "0.10"
serde = { version = "1", features = ["derive"] }
serde_json = "1"
structopt = "0.3"
chrono = "0.4"
lazy_static = "1"
