[package]
name = "wb_supplies"
version = "0.1.0"
edition = "2021"
publish = false

[dependencies]
chromiumoxide = { version = "0.7", default-features = false, features = ["tokio-runtime"] }
chrono = "0.4"
open = "5"
reqwest = { version = "0.12", features = ["json"] }
serde = { version = "1", features = ["derive"] }
serde_json = "1"
thiserror = "2"
tokio = { version = "1", features = ["full"] }
tokio-stream = "0.1"
toml = "0.9"
