[package]
name = "timhortons_tracker"
version = "0.1.0"
edition = "2021"
publish = false

[dependencies]
chrono = "0.4"
clap = { version = "4", features = ["derive"] }
csv = "1"
rusqlite = "*"
serde = { version = "1", features = ["derive"] }
