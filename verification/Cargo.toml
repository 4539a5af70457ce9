[package]
name = "primidi"
version = "0.1.0"
edition = "2021"
publish = false

[dependencies]
chrono = "0.4"
csv = "1"
dotenvy = "0.15"
eggbug = "*"
reqwest = "0.11"
tokio = { version = "1", features = ["macros", "rt-multi-thread"] }
