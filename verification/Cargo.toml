[package]
name = "feed_handler"
version = "0.1.0"
edition = "2021"
publish = false

[dependencies]
crossbeam = "=0.8.5"
mylzo = "=0.1.1"
fastlib = "=0.3.8"
serde = { version = "=1.0.229", features = ["derive"] }
serde_json = "=1.0.151"
bytes = "=1.12.1"
