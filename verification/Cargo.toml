[package]
name = "sync_watch"
version = "0.1.0"
edition = "2021"
publish = false

[dependencies]
serde = { version = "1", features = ["derive"] }
serde_json = "1"
thiserror = "2"
log = "0.4"
tokio = { version = "1", features = ["process", "sync", "time", "macros", "rt"] }
reqwest = { version = "0.12", default-features = false, features = ["json"] }
