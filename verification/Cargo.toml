[package]
name = "glyfi"
version = "0.1.0"
edition = "2021"
publish = false

[dependencies]
chrono = "*"
clap = { version = "*", features = ["derive"] }
ctrlc = "*"
reqwest = { version = "*", default-features = false }
sqlx = { version = "*", default-features = false, features = ["sqlite", "runtime-tokio", "derive"] }
tokio = { version = "*", features = ["full"] }
