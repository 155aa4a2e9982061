[package]
name = "galileo"
version = "0.1.0"
edition = "2021"
publish = false

[dependencies]
num-traits = "0.2"
bytes = "1"
serde = { version = "1", features = ["derive"] }
log = "0.4"
async-trait = "0.1"
reqwest = { version = "0.11", default-features = false }
