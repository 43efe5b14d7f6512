[package]
name = "pokemon_world"
version = "0.1.0"
edition = "2021"
publish = false

[dependencies]
serde_json = "*"
serde = { version = "*", features = ["derive"] }
log = "*"
env_logger = "*"
reqwest = { version = "*", default-features = false, features = ["json"] }
actix-web = { version = "*", default-features = false, features = ["macros"] }
