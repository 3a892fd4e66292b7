[package]
name = "schemamama_rusqlite"
version = "0.1.0"
edition = "2021"
publish = false

[dependencies]
rusqlite = { version = "*", features = ["bundled"] }
schemamama = "*"
thiserror = "*"
