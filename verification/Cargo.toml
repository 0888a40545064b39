[package]
name = "viewcount"
version = "0.1.0"
edition = "2021"
publish = false

[dependencies]
rusqlite = { version = "*", features = ["bundled"] }
axum = "0.7"
tokio = { version = "1", features = ["rt-multi-thread", "macros", "net", "sync"] }
serde = { version = "1", features = ["derive"] }
tower-http = { version = "*", features = ["cors"] }

[dev-dependencies]
tempfile = "*"
