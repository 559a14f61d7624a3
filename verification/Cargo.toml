[package]
name = "glasspos"
version = "0.1.0"
edition = "2021"
publish = false

[dependencies]
rusqlite = { version = "*", features = ["bundled"] }
bcrypt = "*"
chrono = "*"
serde = { version = "*", features = ["derive"] }
serde_json = "*"
once_cell = "*"
directories = "*"
