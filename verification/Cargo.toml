[package]
name = "statcards"
version = "0.1.0"
edition = "2021"
publish = false

[dependencies]
fontdue = "*"
human_format = "*"
moka = { version = "*", features = ["sync", "future"] }
serde = { version = "*", features = ["derive"] }
serde_json = "*"
chrono = "*"
axum = "*"
tokio = { version = "*", features = ["macros", "rt-multi-thread", "net"] }
reqwest = { version = "*", default-features = false, features = ["json"] }
dotenv = "*"
