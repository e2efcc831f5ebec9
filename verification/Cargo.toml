[package]
name = "squirtle_bot"
version = "0.1.0"
edition = "2021"
publish = false

[dependencies]
rand = "0.8"
reqwest = { version = "0.11", features = ["json"] }
serde = { version = "1", features = ["derive"] }
serenity = "0.10"
tokio = { version = "1", features = ["macros", "rt-multi-thread"] }
