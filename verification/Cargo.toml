[package]
name = "rvtools2vse"
version = "0.1.0"
edition = "2021"
publish = false

[dependencies]
anyhow = "1"
calamine = "0.22"
clap = { version = "4", features = ["derive"] }
comfy-table = "7"
itertools = "0.11"
serde = { version = "1", features = ["derive"] }
serde_json = "1"
termplot = "0.1"
thiserror = "1"
