[package]
name = "debate_server"
version = "0.1.0"
edition = "2021"
publish = false

[dependencies]
actix-web = "4"
actix-rt = "2"
mime = "0.3"
serde = { version = "1", features = ["derive"] }
serde_json = "1"
