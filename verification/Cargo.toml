[package]
name = "telividb"
version = "0.1.0"
edition = "2021"
publish = false

[dependencies]
tonic = "0.14"
serde = { version = "1", features = ["derive"] }
thiserror = "2"
http = "1"
