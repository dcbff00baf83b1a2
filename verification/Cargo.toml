[package]
name = "shplank"
version = "0.1.0"
edition = "2021"
publish = false

[dependencies]
ratatui = "0.30"
russh = { version = "0.61", default-features = false, features = ["ring", "flate2", "rsa"] }
sqlx = { version = "*", default-features = false, features = ["sqlite", "runtime-tokio", "derive"] }
tokio = { version = "1", features = ["full"] }
rand = "*"
