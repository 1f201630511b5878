[package]
name = "scribble"
version = "0.1.0"
edition = "2021"
publish = false

[dependencies]
async-trait = "*"
clap = "*"
serde = { version = "*", features = ["derive"] }
serde_json = "*"
shellexpand = "*"
sqlx = { version = "*", default-features = false, features = ["sqlite", "runtime-tokio", "migrate", "derive"] }
thiserror = "*"
tokio = { version = "*", features = ["full"] }
