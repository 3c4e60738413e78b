[package]
name = "renert"
version = "0.1.0"
edition = "2021"
publish = false

[dependencies]
morph-rs = "*"
lru = "*"
once_cell = "1"
parking_lot = "*"
serde = { version = "1", features = ["derive"] }
serde_json = { version = "1", features = ["preserve_order"] }
thiserror = "*"
