[package]
name = "rsms"
version = "0.1.0"
edition = "2021"
publish = false

[dependencies]
tokio = { version = "1", features = ["full"] }
actix-web = "4"
futures = "0.3"
