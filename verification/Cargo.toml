[package]
name = "nickbot"
version = "0.1.0"
edition = "2021"
publish = false

[dependencies]
anyhow = "1"
serenity = "0.11"
songbird = "0.3"
tokio = { version = "1", features = ["macros", "rt-multi-thread"] }
youtube_dl = "0.7"
