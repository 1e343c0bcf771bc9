[package]
name = "observatory"
version = "0.1.0"
edition = "2021"
publish = false

[dependencies]
chrono = { version = "0.4", default-features = false, features = ["std", "now", "serde"] }
clap = { version = "4", default-features = false, features = ["std", "derive", "help", "usage", "error-context"] }
dns-lookup = "2"
reqwest = { version = "0.11", default-features = false, features = ["rustls-tls"] }
rocket = { version = "0.5", features = ["json"] }
rusqlite = { version = "0.31", features = ["bundled", "chrono"] }
