[package]
name = "dot15d4"
version = "0.1.0"
edition = "2021"
publish = false

[dependencies]
crc = "3"
heapless = "0.8"
hex = "0.4"
clap = { version = "4", features = ["derive"] }
colored = "2"

[dev-dependencies]
