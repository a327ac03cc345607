[package]
name = "visitor_counter"
version = "0.1.0"
edition = "2021"
publish = false

[dependencies]
rusqlite = { version = "*", features = ["bundled"] }
rocket = { version = "0.5", default-features = false }
