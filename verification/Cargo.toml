[package]
name = "emoji_archiver"
version = "0.1.0"
edition = "2021"
publish = false

[dependencies]
chrono = "0.4"
log = "0.4"
pretty_env_logger = "0.4"
reqwest = { version = "0.11", default-features = false, features = ["rustls-tls"] }
serenity = "0.10"
structopt = "0.3"
tokio = { version = "1", features = ["macros", "rt-multi-thread"] }
