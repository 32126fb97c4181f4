[package]
name = "todo_service"
version = "0.1.0"
edition = "2021"
publish = false

[dependencies]
actix-web = "=4.15.0"
actix-rt = "=2.15.0"
tokio-postgres = "=0.7.18"
deadpool-postgres = { version = "=0.14.2", features = ["serde"] }
config = { version = "=0.15.27", default-features = false }
dotenv = "=0.15.0"
serde = { version = "=1.0.229", features = ["derive"] }
slog = "=2.8.2"
slog-async = "=2.8.0"
slog-term = "=2.9.2"
