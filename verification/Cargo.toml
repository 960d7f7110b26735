[package]
name = "game_lobby"
version = "0.1.0"
edition = "2021"
publish = false

[dependencies]
uuid = { version = "1", features = ["v4"] }
serde = { version = "1", features = ["derive"] }
log = "0.4"
log4rs = "1"
rocket = { version = "0.5", features = ["json"] }
