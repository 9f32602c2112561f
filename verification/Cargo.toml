[package]
name = "devto_fetcher"
version = "0.1.0"
edition = "2021"
publish = false

[dependencies]
clap = { version = "=4.6.7", features = ["derive"] }
reqwest = { version = "=0.13.5", default-features = false, features = ["json", "query"] }
serde = { version = "=1.0.229", features = ["derive"] }
serde_json = "=1.0.151"
slog = "=2.8.2"
slog-async = "=2.8.0"
slog-term = "=2.9.2"
tokio = { version = "=1.53.2", features = ["macros", "rt-multi-thread", "signal"] }
tokio-util = "=0.7.19"
