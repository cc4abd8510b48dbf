[package]
name = "goofus_gagger"
version = "0.1.0"
edition = "2021"
publish = false

[dependencies]
clap = { version = "4", features = ["derive"] }
poise = "0.6"
rand = "0.9"
regex = "1"
serde = { version = "1", features = ["derive"] }
serde_json = "1"
serenity = "0.12"
thiserror = "2"
tokio = { version = "1", features = ["macros", "rt-multi-thread"] }
