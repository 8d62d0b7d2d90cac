[package]
name = "spotify_analysis"
version = "0.1.0"
edition = "2021"
publish = false

[dependencies]
rspotify = "0.16"
serde = { version = "1", features = ["derive"] }
actix-web = { version = "4", default-features = false, features = ["macros"] }
actix-session = { version = "0.11", features = ["cookie-session"] }
actix-files = "0.6"
actix-rt = "2"
env_logger = { version = "0.11", default-features = false }
