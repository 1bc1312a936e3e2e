[package]
name = "hoshinova"
version = "0.1.0"
edition = "2021"
publish = false

[dependencies]
regex = "*"
serde = { version = "*", features = ["derive"] }
toml = "*"
tokio = { version = "*", features = ["rt", "macros", "fs", "sync", "time", "process", "io-util"] }
chrono = "*"
reqwest = { version = "*", default-features = false, features = ["json"] }
