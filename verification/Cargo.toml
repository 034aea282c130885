[package]
name = "housedb"
version = "0.1.0"
edition = "2021"
publish = false

[dependencies]
csv = "1"
clap = "2"
rusqlite = { version = "0.32", features = ["bundled"] }
sqlx = { version = "0.8", default-features = false, features = ["runtime-tokio", "sqlite"] }
tokio = { version = "1", features = ["rt-multi-thread", "macros"] }
