[package]
name = "forvo"
version = "0.1.0"
edition = "2021"
publish = false

[dependencies]
regex = "1"
serde = { version = "1", features = ["derive"] }
serde_json = "1"
reqwest = { version = "0.12", default-features = false, features = ["json"] }
tokio = { version = "1", features = ["fs", "io-util", "macros", "rt-multi-thread"] }
dirs = "5"
clap = { version = "4", features = ["derive"] }
