[package]
name = "simbatch"
version = "0.1.0"
edition = "2021"
publish = false

[dependencies]
actix-web = "*"
alloy = { version = "*", default-features = false }
futures = "*"
serde = { version = "*", features = ["derive"] }
serde_json = "*"
tokio = { version = "*", features = ["full"] }
