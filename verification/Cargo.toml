[package]
name = "server_fn"
version = "0.1.0"
edition = "2021"
publish = false

[dependencies]
axum = { version = "*", default-features = false }
bytes = "1"
futures = "0.3"
reqwest = { version = "*", default-features = false, features = ["stream"] }
serde = { version = "1", features = ["derive"] }
thiserror = "*"
url = "2"
