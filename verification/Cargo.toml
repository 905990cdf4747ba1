[package]
name = "mensa_bot"
version = "0.1.0"
edition = "2021"
publish = false

[dependencies]
chrono = "0.4"
backon = "0.4"
serde = { version = "1", features = ["derive"] }
tokio = { version = "1", features = ["macros", "rt-multi-thread", "signal", "sync", "time"] }
tokio-util = "0.7"
reqwest = { version = "0.11", default-features = false, features = ["json", "rustls-tls"] }
serenity = "0.11"
